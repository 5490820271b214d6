//! Parameter sink: consumes bind descriptors in declaration order and
//! assigns each a 1-based parameter ordinal and the native codes of an input
//! parameter bind call.

use vstd::prelude::*;
use crate::bind_types::{spec_c_data_type, spec_data_type, spec_kind_size, CDataType, SqlDataType};
use crate::binder::{desc_fits, descs_of, Descriptor};
use crate::value::{Scalar, Value};

verus! {

/// One native input parameter bind call.
#[derive(Clone, Copy, Debug, PartialEq, Eq)]
pub struct ParamBind {
    /// 1-based parameter ordinal.
    pub ordinal: u16,
    /// Native transfer code.
    pub c_type: CDataType,
    /// Native SQL type code; unlike for columns, it affects server-side
    /// coercion.
    pub sql_type: SqlDataType,
    /// Logical SQL size; for text, the current length.
    pub column_size: usize,
    /// Byte offset of the bound buffer from the record block's start.
    pub offset: usize,
    /// Byte length of the bound buffer.
    pub buffer_len: usize,
    /// Byte offset of the indicator slot, if the field has one.
    pub indicator: Option<usize>,
}

/// The parameter bind call a descriptor turns into at a given ordinal: a
/// scalar uses both its table codes and its in-memory size; text uses the
/// character transfer code and describes only its current length, since a
/// parameter only needs to describe what will be read.
pub open spec fn param_bind_of(d: Descriptor, ordinal: u16) -> ParamBind {
    match d {
        Descriptor::Scalar { kind, offset, indicator } => ParamBind {
            ordinal,
            c_type: spec_c_data_type(kind),
            sql_type: spec_data_type(kind),
            column_size: 0,
            offset,
            buffer_len: spec_kind_size(kind) as usize,
            indicator,
        },
        Descriptor::Text { len, capacity, offset, indicator } => ParamBind {
            ordinal,
            c_type: CDataType::Char,
            sql_type: SqlDataType::Varchar,
            column_size: len,
            offset,
            buffer_len: len,
            indicator: Some(indicator),
        },
    }
}

/// The parameter bind calls of a whole descriptor sequence, ordinals 1 up.
pub open spec fn param_binds_seq(ds: Seq<Descriptor>) -> Seq<ParamBind> {
    Seq::new(ds.len(), |i: int| param_bind_of(ds[i], (i + 1) as u16))
}

/// Turns the emitted descriptors into parameter bind calls: the i-th
/// descriptor is bound at ordinal i + 1.
pub fn bind_params(descs: &Vec<Descriptor>) -> (r: Vec<ParamBind>)
    requires
        descs@.len() <= u16::MAX,
        forall|i: int| 0 <= i < descs@.len() ==> desc_fits(#[trigger] descs@[i]),
    ensures
        r@ == param_binds_seq(descs@),
{
    let mut out: Vec<ParamBind> = Vec::new();
    let mut i: usize = 0;
    while i < descs.len()
        invariant
            i <= descs@.len(),
            descs@.len() <= u16::MAX,
            out@.len() == i,
            forall|k: int| 0 <= k < i ==> out@[k] == param_bind_of(descs@[k], (k + 1) as u16),
        decreases descs@.len() - i,
    {
        let ordinal = (i + 1) as u16;
        let bind = match descs[i] {
            Descriptor::Scalar { kind, offset, indicator } => ParamBind {
                ordinal,
                c_type: kind.c_data_type(),
                sql_type: kind.data_type(),
                column_size: 0,
                offset,
                buffer_len: kind.size(),
                indicator,
            },
            Descriptor::Text { len, capacity: _, offset, indicator } => ParamBind {
                ordinal,
                c_type: CDataType::Char,
                sql_type: SqlDataType::Varchar,
                column_size: len,
                offset,
                buffer_len: len,
                indicator: Some(indicator),
            },
        };
        out.push(bind);
        i = i + 1;
    }
    proof {
        assert(out@ =~= param_binds_seq(descs@));
    }
    out
}

/// Law: a lone scalar value emits exactly one descriptor, and binding it
/// gives that descriptor the ordinal it was handed and the transfer and SQL
/// type codes of the type mapping table for the scalar's kind.
pub proof fn lemma_scalar_bind_matches_table(s: Scalar, off: int, ordinal: u16)
    ensures
        descs_of(Value::Scalar(s), off).len() == 1,
        param_bind_of(descs_of(Value::Scalar(s), off)[0], ordinal).ordinal == ordinal,
        param_bind_of(descs_of(Value::Scalar(s), off)[0], ordinal).c_type == spec_c_data_type(
            s.spec_kind(),
        ),
        param_bind_of(descs_of(Value::Scalar(s), off)[0], ordinal).sql_type == spec_data_type(
            s.spec_kind(),
        ),
        crate::col_binder::col_bind_of(descs_of(Value::Scalar(s), off)[0], ordinal).c_type
            == spec_c_data_type(s.spec_kind()),
{
}

} // verus!
