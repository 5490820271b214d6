//! The type mapping table: for each supported primitive kind, its native
//! transfer code, its native SQL type code, and its in-memory byte size.

use vstd::prelude::*;

verus! {

/// The primitive kinds the binding engine supports.
#[derive(PartialEq, Eq, Structural)]
#[derive(Clone, Copy, Debug)]
pub enum ScalarKind {
    I8,
    I16,
    I32,
    I64,
    U8,
    U16,
    U32,
    U64,
    F32,
    F64,
    Bool,
}

/// Native transfer ("C data type") codes the engine issues.
#[derive(PartialEq, Eq, Structural)]
#[derive(Clone, Copy, Debug)]
pub enum CDataType {
    STinyInt,
    SShort,
    SLong,
    SBigInt,
    UTinyInt,
    UShort,
    ULong,
    UBigInt,
    Float,
    Double,
    Bit,
    Char,
}

/// Native SQL type codes the engine issues for parameters.
#[derive(PartialEq, Eq, Structural)]
#[derive(Clone, Copy, Debug)]
pub enum SqlDataType {
    TinyInt,
    SmallInt,
    Integer,
    BigInt,
    Float,
    Double,
    Varchar,
}

/// Transfer code of each supported kind.
pub open spec fn spec_c_data_type(k: ScalarKind) -> CDataType {
    match k {
        ScalarKind::I8 => CDataType::STinyInt,
        ScalarKind::I16 => CDataType::SShort,
        ScalarKind::I32 => CDataType::SLong,
        ScalarKind::I64 => CDataType::SBigInt,
        ScalarKind::U8 => CDataType::UTinyInt,
        ScalarKind::U16 => CDataType::UShort,
        ScalarKind::U32 => CDataType::ULong,
        ScalarKind::U64 => CDataType::UBigInt,
        ScalarKind::F32 => CDataType::Float,
        ScalarKind::F64 => CDataType::Double,
        ScalarKind::Bool => CDataType::Bit,
    }
}

/// SQL type code of each supported kind.
pub open spec fn spec_data_type(k: ScalarKind) -> SqlDataType {
    match k {
        ScalarKind::I8 => SqlDataType::TinyInt,
        ScalarKind::I16 => SqlDataType::SmallInt,
        ScalarKind::I32 => SqlDataType::Integer,
        ScalarKind::I64 => SqlDataType::BigInt,
        ScalarKind::U8 => SqlDataType::TinyInt,
        ScalarKind::U16 => SqlDataType::SmallInt,
        ScalarKind::U32 => SqlDataType::Integer,
        ScalarKind::U64 => SqlDataType::BigInt,
        ScalarKind::F32 => SqlDataType::Float,
        ScalarKind::F64 => SqlDataType::Double,
        ScalarKind::Bool => SqlDataType::TinyInt,
    }
}

/// In-memory byte size of a value of each supported kind.
pub open spec fn spec_kind_size(k: ScalarKind) -> nat {
    match k {
        ScalarKind::I8 => 1,
        ScalarKind::I16 => 2,
        ScalarKind::I32 => 4,
        ScalarKind::I64 => 8,
        ScalarKind::U8 => 1,
        ScalarKind::U16 => 2,
        ScalarKind::U32 => 4,
        ScalarKind::U64 => 8,
        ScalarKind::F32 => 4,
        ScalarKind::F64 => 8,
        ScalarKind::Bool => 1,
    }
}

impl ScalarKind {
    /// Looks the kind's transfer code up in the type mapping table.
    pub fn c_data_type(&self) -> (r: CDataType)
        ensures
            r == spec_c_data_type(*self),
    {
        match self {
            ScalarKind::I8 => CDataType::STinyInt,
            ScalarKind::I16 => CDataType::SShort,
            ScalarKind::I32 => CDataType::SLong,
            ScalarKind::I64 => CDataType::SBigInt,
            ScalarKind::U8 => CDataType::UTinyInt,
            ScalarKind::U16 => CDataType::UShort,
            ScalarKind::U32 => CDataType::ULong,
            ScalarKind::U64 => CDataType::UBigInt,
            ScalarKind::F32 => CDataType::Float,
            ScalarKind::F64 => CDataType::Double,
            ScalarKind::Bool => CDataType::Bit,
        }
    }

    /// Looks the kind's SQL type code up in the type mapping table.
    pub fn data_type(&self) -> (r: SqlDataType)
        ensures
            r == spec_data_type(*self),
    {
        match self {
            ScalarKind::I8 => SqlDataType::TinyInt,
            ScalarKind::I16 => SqlDataType::SmallInt,
            ScalarKind::I32 => SqlDataType::Integer,
            ScalarKind::I64 => SqlDataType::BigInt,
            ScalarKind::U8 => SqlDataType::TinyInt,
            ScalarKind::U16 => SqlDataType::SmallInt,
            ScalarKind::U32 => SqlDataType::Integer,
            ScalarKind::U64 => SqlDataType::BigInt,
            ScalarKind::F32 => SqlDataType::Float,
            ScalarKind::F64 => SqlDataType::Double,
            ScalarKind::Bool => SqlDataType::TinyInt,
        }
    }

    /// Byte size of a value of this kind.
    pub fn size(&self) -> (r: usize)
        ensures
            r == spec_kind_size(*self),
    {
        match self {
            ScalarKind::I8 => 1,
            ScalarKind::I16 => 2,
            ScalarKind::I32 => 4,
            ScalarKind::I64 => 8,
            ScalarKind::U8 => 1,
            ScalarKind::U16 => 2,
            ScalarKind::U32 => 4,
            ScalarKind::U64 => 8,
            ScalarKind::F32 => 4,
            ScalarKind::F64 => 8,
            ScalarKind::Bool => 1,
        }
    }
}

} // verus!
