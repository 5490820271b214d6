//! Column sink: consumes bind descriptors in declaration order and assigns
//! each a 1-based column ordinal and the native codes of a column bind call.

use vstd::prelude::*;
use crate::bind_types::{spec_c_data_type, spec_kind_size, CDataType};
use crate::binder::{desc_fits, Descriptor};

verus! {

/// One native column bind call.
#[derive(Clone, Copy, Debug, PartialEq, Eq)]
pub struct ColBind {
    /// 1-based column ordinal.
    pub ordinal: u16,
    /// Native transfer code.
    pub c_type: CDataType,
    /// Byte offset of the bound buffer from the record block's start.
    pub offset: usize,
    /// Byte length of the bound buffer.
    pub buffer_len: usize,
    /// Byte offset of the indicator slot, if the field has one.
    pub indicator: Option<usize>,
}

/// The column bind call a descriptor turns into at a given ordinal: a scalar
/// uses its kind's transfer code and in-memory size; text uses the character
/// transfer code and one byte more than the declared capacity, because the
/// native column contract always reserves space for a terminator.
pub open spec fn col_bind_of(d: Descriptor, ordinal: u16) -> ColBind {
    match d {
        Descriptor::Scalar { kind, offset, indicator } => ColBind {
            ordinal,
            c_type: spec_c_data_type(kind),
            offset,
            buffer_len: spec_kind_size(kind) as usize,
            indicator,
        },
        Descriptor::Text { len, capacity, offset, indicator } => ColBind {
            ordinal,
            c_type: CDataType::Char,
            offset,
            buffer_len: (capacity + 1) as usize,
            indicator: Some(indicator),
        },
    }
}

/// The column bind calls of a whole descriptor sequence, ordinals 1 up.
pub open spec fn col_binds_seq(ds: Seq<Descriptor>) -> Seq<ColBind> {
    Seq::new(ds.len(), |i: int| col_bind_of(ds[i], (i + 1) as u16))
}

/// Law: binding emitted descriptors preserves declaration order — the i-th
/// emitted primitive is bound at ordinal i + 1, a scalar with the transfer
/// code of the type mapping table and text with the character code.
pub proof fn lemma_ordinals_follow_emission(ds: Seq<Descriptor>)
    requires
        ds.len() <= u16::MAX,
    ensures
        col_binds_seq(ds).len() == ds.len(),
        forall|i: int|
            0 <= i < ds.len() ==> (#[trigger] col_binds_seq(ds)[i]).ordinal == i + 1,
        forall|i: int|
            0 <= i < ds.len() && ds[i] is Scalar ==> (#[trigger] col_binds_seq(ds)[i]).c_type
                == spec_c_data_type(ds[i]->Scalar_kind),
        forall|i: int|
            0 <= i < ds.len() && ds[i] is Text ==> (#[trigger] col_binds_seq(ds)[i]).c_type
                == CDataType::Char,
{
}

/// Turns the emitted descriptors into column bind calls: the i-th descriptor
/// is bound at ordinal i + 1.
pub fn bind_cols(descs: &Vec<Descriptor>) -> (r: Vec<ColBind>)
    requires
        descs@.len() <= u16::MAX,
        forall|i: int| 0 <= i < descs@.len() ==> desc_fits(#[trigger] descs@[i]),
    ensures
        r@ == col_binds_seq(descs@),
{
    let mut out: Vec<ColBind> = Vec::new();
    let mut i: usize = 0;
    while i < descs.len()
        invariant
            i <= descs@.len(),
            descs@.len() <= u16::MAX,
            forall|k: int| 0 <= k < descs@.len() ==> desc_fits(#[trigger] descs@[k]),
            out@.len() == i,
            forall|k: int| 0 <= k < i ==> out@[k] == col_bind_of(descs@[k], (k + 1) as u16),
        decreases descs@.len() - i,
    {
        let ordinal = (i + 1) as u16;
        let bind = match descs[i] {
            Descriptor::Scalar { kind, offset, indicator } => ColBind {
                ordinal,
                c_type: kind.c_data_type(),
                offset,
                buffer_len: kind.size(),
                indicator,
            },
            Descriptor::Text { len: _, capacity, offset, indicator } => ColBind {
                ordinal,
                c_type: CDataType::Char,
                offset,
                buffer_len: capacity + 1,
                indicator: Some(indicator),
            },
        };
        out.push(bind);
        i = i + 1;
    }
    proof {
        assert(out@ =~= col_binds_seq(descs@));
    }
    out
}

} // verus!
