//! Parameter binding strategies: empty, single-record and parameter-set.
//!
//! Each strategy owns its change detection: it remembers whether the block
//! it last bound is still the one it would bind now, skips the native bind
//! calls entirely while nothing changed, and rebinds after any change that
//! may have moved the backing storage.

use vstd::prelude::*;
use crate::binder::{descs_of, byte_size, lemma_same_shape_descs_len, traverse};
use crate::error::Error;
use crate::param_binder::{bind_params, param_binds_seq, ParamBind};
use crate::value::{
    lemma_same_shape_size, lemma_same_shape_supported, same_shape, supported, value_size, Value,
};

verus! {

/// The two native statement attributes a parameter-set bind issues: the row
/// stride and the number of parameter rows submitted per execute.
#[derive(Clone, Copy, Debug, PartialEq, Eq)]
pub struct ParamSetAttrs {
    /// Byte stride from one parameter row to the next.
    pub row_size: usize,
    /// Number of parameter rows submitted by one execute.
    pub set_size: usize,
}

/// The native calls a parameter strategy issues before one execute: the
/// parameter bind calls, and the parameter-set attributes where they must be
/// (re)issued.
#[derive(Debug, PartialEq, Eq)]
pub struct ParamPlan {
    /// Parameter bind calls, in ordinal order; empty while the previous
    /// binding is still valid.
    pub binds: Vec<ParamBind>,
    /// Parameter-set attributes, where they changed since they were last
    /// issued.
    pub attrs: Option<ParamSetAttrs>,
}

/// Number of native calls a parameter plan issues.
pub open spec fn param_plan_calls(p: ParamPlan) -> nat {
    p.binds@.len() + (if p.attrs is Some {
        2nat
    } else {
        0nat
    })
}

/// An empty parameter plan: no native calls at all.
pub open spec fn empty_param_plan(p: ParamPlan) -> bool {
    p.binds@.len() == 0 && p.attrs is None
}

/// Single-record parameter binding.
pub struct Params {
    data: Value,
    bound: bool,
}

impl Params {
    /// The parameter record.
    pub closed spec fn data_spec(&self) -> Value {
        self.data
    }

    /// True while the record's storage is bound and unmoved.
    pub closed spec fn spec_bound(&self) -> bool {
        self.bound
    }

    /// The record fits in the address space, its primitive fields fit the
    /// native ordinal range, and a bound record is a supported shape.
    pub open spec fn inv(&self) -> bool {
        &&& value_size(self.data_spec()) <= usize::MAX
        &&& descs_of(self.data_spec(), 0).len() <= u16::MAX
        &&& (self.spec_bound() ==> supported(self.data_spec()))
    }

    /// A fresh, not yet bound single-record strategy.
    pub fn new(data: Value) -> (r: Params)
        requires
            value_size(data) <= usize::MAX,
            descs_of(data, 0).len() <= u16::MAX,
        ensures
            r.inv(),
            r.data_spec() == data,
            !r.spec_bound(),
    {
        Params { data, bound: false }
    }

    /// Read access to the parameter record.
    pub fn params(&self) -> (r: &Value)
        ensures
            *r == self.data_spec(),
    {
        &self.data
    }

    /// Overwrites the record with one of the same shape.  Writing values
    /// does not move the backing storage, so the binding stays valid.
    pub fn set(&mut self, v: Value)
        requires
            old(self).inv(),
            same_shape(v, old(self).data_spec()),
        ensures
            final(self).inv(),
            final(self).data_spec() == v,
            final(self).spec_bound() == old(self).spec_bound(),
    {
        proof {
            lemma_same_shape_size(v, old(self).data_spec());
            lemma_same_shape_supported(v, old(self).data_spec());
            lemma_same_shape_descs_len(v, old(self).data_spec(), 0, 0);
        }
        self.data = v;
    }

    /// The native calls to issue before the next execute: nothing while the
    /// previous binding is valid, else one bind call per primitive field.
    pub fn bind(&mut self) -> (r: Result<ParamPlan, Error>)
        requires
            old(self).inv(),
        ensures
            final(self).inv(),
            final(self).data_spec() == old(self).data_spec(),
            r is Ok <==> supported(old(self).data_spec()),
            r is Err ==> r->Err_0 == Error::StructuralError && *final(self) == *old(self),
            r is Ok ==> final(self).spec_bound(),
            r is Ok ==> r->Ok_0.attrs is None,
            r is Ok && old(self).spec_bound() ==> r->Ok_0.binds@.len() == 0,
            r is Ok && !old(self).spec_bound() ==> r->Ok_0.binds@ == param_binds_seq(
                descs_of(old(self).data_spec(), 0),
            ),
    {
        if self.bound {
            return Ok(ParamPlan { binds: Vec::new(), attrs: None });
        }
        match traverse(&self.data, 0) {
            Ok(descs) => {
                let binds = bind_params(&descs);
                self.bound = true;
                Ok(ParamPlan { binds, attrs: None })
            },
            Err(e) => Err(e),
        }
    }

    /// Drops the cached binding, forcing a rebind before the next execute.
    pub fn invalidate(&mut self)
        requires
            old(self).inv(),
        ensures
            final(self).inv(),
            final(self).data_spec() == old(self).data_spec(),
            !final(self).spec_bound(),
    {
        self.bound = false;
    }
}

/// No parameters: binding is a no-op that always succeeds.
pub struct NoParams {}

impl NoParams {
    /// The empty strategy.
    pub fn new() -> (r: NoParams) {
        NoParams {  }
    }

    /// Zero ordinals: nothing to bind, nothing can fail.
    pub fn bind(&mut self) -> (r: Result<ParamPlan, Error>)
        ensures
            r is Ok,
            r is Ok ==> empty_param_plan(r->Ok_0),
    {
        Ok(ParamPlan { binds: Vec::new(), attrs: None })
    }
}

/// Parameter-set binding: an ordered, contiguous sequence of identically
/// shaped parameter rows submitted as one block by one execute.
pub struct ParamSet {
    proto: Value,
    rows: Vec<Value>,
    bound: bool,
    last_size: Option<usize>,
}

impl ParamSet {
    /// The shape prototype every row follows.
    pub closed spec fn proto_spec(&self) -> Value {
        self.proto
    }

    /// The parameter rows, in submission order.
    pub closed spec fn rows_spec(&self) -> Seq<Value> {
        self.rows@
    }

    /// True while the block's storage is bound and unmoved.
    pub closed spec fn spec_bound(&self) -> bool {
        self.bound
    }

    /// The parameter-set size the attributes were last issued with.
    pub closed spec fn spec_last_size(&self) -> Option<usize> {
        self.last_size
    }

    /// The prototype fits the native limits, every row has its shape, and a
    /// bound block is a supported shape.
    pub open spec fn inv(&self) -> bool {
        &&& value_size(self.proto_spec()) <= usize::MAX
        &&& descs_of(self.proto_spec(), 0).len() <= u16::MAX
        &&& forall|i: int|
            0 <= i < self.rows_spec().len() ==> same_shape(
                #[trigger] self.rows_spec()[i],
                self.proto_spec(),
            )
        &&& (self.spec_bound() ==> supported(self.proto_spec()))
    }

    /// A fresh, empty parameter set whose rows will follow the prototype's
    /// shape.
    pub fn new(proto: Value) -> (r: ParamSet)
        requires
            value_size(proto) <= usize::MAX,
            descs_of(proto, 0).len() <= u16::MAX,
        ensures
            r.inv(),
            r.proto_spec() == proto,
            r.rows_spec() == Seq::<Value>::empty(),
            !r.spec_bound(),
            r.spec_last_size() is None,
    {
        ParamSet { proto, rows: Vec::new(), bound: false, last_size: None }
    }

    /// Read access to the parameter rows.
    pub fn params(&self) -> (r: &Vec<Value>)
        ensures
            r@ == self.rows_spec(),
    {
        &self.rows
    }

    /// Appends a parameter row.  Growing the block may move its storage, so
    /// the cached binding is dropped.
    pub fn push(&mut self, v: Value)
        requires
            old(self).inv(),
            same_shape(v, old(self).proto_spec()),
        ensures
            final(self).inv(),
            final(self).proto_spec() == old(self).proto_spec(),
            final(self).rows_spec() == old(self).rows_spec().push(v),
            !final(self).spec_bound(),
            final(self).spec_last_size() == old(self).spec_last_size(),
    {
        self.rows.push(v);
        self.bound = false;
        proof {
            assert forall|i: int|
                0 <= i < self.rows@.len() implies same_shape(
                #[trigger] self.rows@[i],
                self.proto,
            ) by {
                if i < old(self).rows@.len() {
                    assert(same_shape(old(self).rows_spec()[i], old(self).proto_spec()));
                    assert(self.rows@[i] == old(self).rows@[i]);
                } else {
                    assert(self.rows@[i] == v);
                }
            }
        }
    }

    /// Overwrites one row in place with a value of the block's shape; an
    /// in-place write does not move the storage, so the binding stays valid.
    pub fn set_row(&mut self, i: usize, v: Value)
        requires
            old(self).inv(),
            i < old(self).rows_spec().len(),
            same_shape(v, old(self).proto_spec()),
        ensures
            final(self).inv(),
            final(self).proto_spec() == old(self).proto_spec(),
            final(self).rows_spec() == old(self).rows_spec().update(i as int, v),
            final(self).spec_bound() == old(self).spec_bound(),
            final(self).spec_last_size() == old(self).spec_last_size(),
    {
        self.rows[i] = v;
    }

    /// The native calls to issue before the next execute: the block's bind
    /// calls unless the previous binding is valid, and the parameter-set
    /// attributes where the submitted row count changed.
    pub fn bind(&mut self) -> (r: Result<ParamPlan, Error>)
        requires
            old(self).inv(),
            old(self).rows_spec().len() > 0,
        ensures
            final(self).inv(),
            final(self).proto_spec() == old(self).proto_spec(),
            final(self).rows_spec() == old(self).rows_spec(),
            r is Ok <==> supported(old(self).proto_spec()),
            r is Err ==> r->Err_0 == Error::StructuralError && *final(self) == *old(self),
            r is Ok ==> final(self).spec_bound() && final(self).spec_last_size() == Some(
                old(self).rows_spec().len() as usize,
            ),
            r is Ok && old(self).spec_bound() ==> r->Ok_0.binds@.len() == 0,
            r is Ok && !old(self).spec_bound() ==> r->Ok_0.binds@ == param_binds_seq(
                descs_of(old(self).rows_spec()[0], 0),
            ),
            r is Ok && old(self).spec_last_size() == Some(old(self).rows_spec().len() as usize)
                ==> r->Ok_0.attrs is None,
            r is Ok && old(self).spec_last_size() != Some(old(self).rows_spec().len() as usize)
                ==> r->Ok_0.attrs == Some(
                ParamSetAttrs {
                    row_size: value_size(old(self).proto_spec()) as usize,
                    set_size: old(self).rows_spec().len() as usize,
                },
            ),
    {
        let binds: Vec<ParamBind>;
        if !self.bound {
            proof {
                assert(same_shape(self.rows@[0], self.proto_spec()));
                lemma_same_shape_size(self.rows@[0], self.proto_spec());
                lemma_same_shape_supported(self.rows@[0], self.proto_spec());
                lemma_same_shape_descs_len(self.rows@[0], self.proto_spec(), 0, 0);
            }
            match traverse(&self.rows[0], 0) {
                Ok(descs) => {
                    binds = bind_params(&descs);
                    self.bound = true;
                },
                Err(e) => {
                    return Err(e);
                },
            }
        } else {
            binds = Vec::new();
        }
        let size = self.rows.len();
        let reissue = match self.last_size {
            Some(n) => n != size,
            None => true,
        };
        let attrs = if reissue {
            let row_size = byte_size(&self.proto);
            self.last_size = Some(size);
            Some(ParamSetAttrs { row_size, set_size: size })
        } else {
            None
        };
        Ok(ParamPlan { binds, attrs })
    }

    /// Drops the cached binding, forcing a rebind before the next execute.
    pub fn invalidate(&mut self)
        requires
            old(self).inv(),
        ensures
            final(self).inv(),
            final(self).proto_spec() == old(self).proto_spec(),
            final(self).rows_spec() == old(self).rows_spec(),
            !final(self).spec_bound(),
            final(self).spec_last_size() is None,
    {
        self.bound = false;
        self.last_size = None;
        proof {
            assert(self.rows@ == old(self).rows@);
            assert forall|i: int|
                0 <= i < self.rows@.len() implies same_shape(
                #[trigger] self.rows@[i],
                self.proto,
            ) by {
                assert(same_shape(old(self).rows_spec()[i], old(self).proto_spec()));
            }
        }
    }
}

} // verus!
