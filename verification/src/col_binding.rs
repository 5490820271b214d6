//! Column binding strategies: empty, single-record and row-set.
//!
//! As with parameters, each strategy owns its change detection.  The row-set
//! strategy additionally caches the array capacity it last announced,
//! because a pure capacity change still requires reissuing the array-size
//! and rows-fetched attributes even where the storage did not move.

use vstd::prelude::*;
use crate::binder::{byte_size, descs_of, lemma_same_shape_descs_len, traverse};
use crate::col_binder::{bind_cols, col_binds_seq, ColBind};
use crate::error::Error;
use crate::value::{
    lemma_same_shape_size, lemma_same_shape_supported, lemma_veq_same_shape, same_shape,
    supported, value_size, veq, Value,
};

verus! {

/// The native statement attributes a row-set bind issues: the row stride,
/// the array capacity, and (implicitly bound with them) the address of the
/// rows-fetched counter.
#[derive(Clone, Copy, Debug, PartialEq, Eq)]
pub struct RowSetAttrs {
    /// Byte stride from one fetched row to the next.
    pub row_size: usize,
    /// Number of rows one fetch may fill.
    pub array_size: usize,
}

/// The native calls a column strategy issues before one execute.
#[derive(Debug, PartialEq, Eq)]
pub struct ColPlan {
    /// Column bind calls, in ordinal order; empty while the previous
    /// binding is still valid.
    pub binds: Vec<ColBind>,
    /// Row-set attributes, where they changed since they were last issued;
    /// issuing them also registers the rows-fetched counter.
    pub attrs: Option<RowSetAttrs>,
}

/// Number of native calls a column plan issues: one per bind, three for the
/// attributes (stride, array size, rows-fetched address).
pub open spec fn col_plan_calls(p: ColPlan) -> nat {
    p.binds@.len() + (if p.attrs is Some {
        3nat
    } else {
        0nat
    })
}

/// An empty column plan: no native calls at all.
pub open spec fn empty_col_plan(p: ColPlan) -> bool {
    p.binds@.len() == 0 && p.attrs is None
}

/// Single-record column binding.
pub struct Cols {
    data: Value,
    bound: bool,
}

impl Cols {
    /// The column record a fetch fills.
    pub closed spec fn data_spec(&self) -> Value {
        self.data
    }

    /// True while the record's storage is bound and unmoved.
    pub closed spec fn spec_bound(&self) -> bool {
        self.bound
    }

    /// The record fits in the address space, its primitive fields fit the
    /// native ordinal range, and a bound record is a supported shape.
    pub open spec fn inv(&self) -> bool {
        &&& value_size(self.data_spec()) <= usize::MAX
        &&& descs_of(self.data_spec(), 0).len() <= u16::MAX
        &&& (self.spec_bound() ==> supported(self.data_spec()))
    }

    /// A fresh, not yet bound single-record strategy.
    pub fn new(data: Value) -> (r: Cols)
        requires
            value_size(data) <= usize::MAX,
            descs_of(data, 0).len() <= u16::MAX,
        ensures
            r.inv(),
            r.data_spec() == data,
            !r.spec_bound(),
    {
        Cols { data, bound: false }
    }

    /// Read access to the column record.
    pub fn cols(&self) -> (r: &Value)
        ensures
            *r == self.data_spec(),
    {
        &self.data
    }

    /// Overwrites the record with one of the same shape; this is how the
    /// embedding program deposits what a native fetch produced.
    pub fn set(&mut self, v: Value)
        requires
            old(self).inv(),
            same_shape(v, old(self).data_spec()),
        ensures
            final(self).inv(),
            final(self).data_spec() == v,
            final(self).spec_bound() == old(self).spec_bound(),
    {
        proof {
            lemma_same_shape_size(v, old(self).data_spec());
            lemma_same_shape_supported(v, old(self).data_spec());
            lemma_same_shape_descs_len(v, old(self).data_spec(), 0, 0);
        }
        self.data = v;
    }

    /// The native calls to issue before the next execute: nothing while the
    /// previous binding is valid, else one bind call per primitive field.
    pub fn bind(&mut self) -> (r: Result<ColPlan, Error>)
        requires
            old(self).inv(),
        ensures
            final(self).inv(),
            final(self).data_spec() == old(self).data_spec(),
            r is Ok <==> supported(old(self).data_spec()),
            r is Err ==> r->Err_0 == Error::StructuralError && *final(self) == *old(self),
            r is Ok ==> final(self).spec_bound(),
            r is Ok ==> r->Ok_0.attrs is None,
            r is Ok && old(self).spec_bound() ==> r->Ok_0.binds@.len() == 0,
            r is Ok && !old(self).spec_bound() ==> r->Ok_0.binds@ == col_binds_seq(
                descs_of(old(self).data_spec(), 0),
            ),
    {
        if self.bound {
            return Ok(ColPlan { binds: Vec::new(), attrs: None });
        }
        match traverse(&self.data, 0) {
            Ok(descs) => {
                let binds = bind_cols(&descs);
                self.bound = true;
                Ok(ColPlan { binds, attrs: None })
            },
            Err(e) => Err(e),
        }
    }

    /// A single bound record is refilled by every fetch: there is always a
    /// row to read.
    pub fn fetch(&mut self) -> (r: bool)
        ensures
            r,
            *final(self) == *old(self),
    {
        true
    }

    /// Drops the cached binding, forcing a rebind before the next execute.
    pub fn invalidate(&mut self)
        requires
            old(self).inv(),
        ensures
            final(self).inv(),
            final(self).data_spec() == old(self).data_spec(),
            !final(self).spec_bound(),
    {
        self.bound = false;
    }
}

/// No columns: binding is a no-op that always succeeds.
pub struct NoCols {}

impl NoCols {
    /// The empty strategy.
    pub fn new() -> (r: NoCols) {
        NoCols {  }
    }

    /// Zero ordinals: nothing to bind, nothing can fail.
    pub fn bind(&mut self) -> (r: Result<ColPlan, Error>)
        ensures
            r is Ok,
            r is Ok ==> empty_col_plan(r->Ok_0),
    {
        Ok(ColPlan { binds: Vec::new(), attrs: None })
    }

    /// Nothing to truncate; a fetch that reported data is taken as is.
    pub fn fetch(&mut self) -> (r: bool)
        ensures
            r,
            *final(self) == *old(self),
    {
        true
    }
}

/// Row-set column binding: a contiguous array of identically shaped records
/// filled as one block by each fetch.
pub struct RowSet {
    proto: Value,
    rows: Vec<Value>,
    fetch_size: usize,
    bound: bool,
    last_size: Option<usize>,
}

impl RowSet {
    /// The shape prototype every row follows.
    pub closed spec fn proto_spec(&self) -> Value {
        self.proto
    }

    /// The fetched rows, in result-set order.
    pub closed spec fn rows_spec(&self) -> Seq<Value> {
        self.rows@
    }

    /// The declared array capacity: how many rows one fetch may fill.
    pub closed spec fn spec_fetch_size(&self) -> nat {
        self.fetch_size as nat
    }

    /// True while the block's storage is bound and unmoved.
    pub closed spec fn spec_bound(&self) -> bool {
        self.bound
    }

    /// The array capacity the attributes were last issued with.
    pub closed spec fn spec_last_size(&self) -> Option<usize> {
        self.last_size
    }

    /// The prototype fits the native limits, every row has its shape, rows
    /// never outnumber the declared capacity, and a bound block is a
    /// supported shape.
    pub open spec fn inv(&self) -> bool {
        &&& value_size(self.proto_spec()) <= usize::MAX
        &&& descs_of(self.proto_spec(), 0).len() <= u16::MAX
        &&& self.rows_spec().len() <= self.spec_fetch_size()
        &&& forall|i: int|
            0 <= i < self.rows_spec().len() ==> same_shape(
                #[trigger] self.rows_spec()[i],
                self.proto_spec(),
            )
        &&& (self.spec_bound() ==> supported(self.proto_spec()))
    }

    /// A fresh, empty row set whose rows will follow the prototype's shape.
    /// Its capacity starts at zero; set a fetch size before executing.
    pub fn new(proto: Value) -> (r: RowSet)
        requires
            value_size(proto) <= usize::MAX,
            descs_of(proto, 0).len() <= u16::MAX,
        ensures
            r.inv(),
            r.proto_spec() == proto,
            r.rows_spec() == Seq::<Value>::empty(),
            r.spec_fetch_size() == 0,
            !r.spec_bound(),
            r.spec_last_size() is None,
    {
        RowSet { proto, rows: Vec::new(), fetch_size: 0, bound: false, last_size: None }
    }

    /// Read access to the fetched rows.
    pub fn cols(&self) -> (r: &Vec<Value>)
        ensures
            r@ == self.rows_spec(),
    {
        &self.rows
    }

    /// The declared array capacity.
    pub fn fetch_size(&self) -> (r: usize)
        ensures
            r == self.spec_fetch_size(),
    {
        self.fetch_size
    }

    /// Grows the declared array capacity; shrinking is a no-op.  Growth
    /// reallocates the block, so the cached binding is dropped.
    pub fn set_fetch_size(&mut self, size: usize)
        requires
            old(self).inv(),
        ensures
            final(self).inv(),
            final(self).proto_spec() == old(self).proto_spec(),
            final(self).rows_spec() == old(self).rows_spec(),
            final(self).spec_last_size() == old(self).spec_last_size(),
            size > old(self).spec_fetch_size() ==> final(self).spec_fetch_size() == size
                && !final(self).spec_bound(),
            size <= old(self).spec_fetch_size() ==> *final(self) == *old(self),
    {
        if size > self.fetch_size {
            self.fetch_size = size;
            self.bound = false;
            proof {
                assert forall|i: int|
                    0 <= i < self.rows@.len() implies same_shape(
                    #[trigger] self.rows@[i],
                    self.proto,
                ) by {
                    assert(same_shape(old(self).rows_spec()[i], old(self).proto_spec()));
                }
            }
        }
    }

    /// Overwrites one row in place with a value of the block's shape; this
    /// is how the embedding program deposits what a native fetch produced.
    pub fn set_row(&mut self, i: usize, v: Value)
        requires
            old(self).inv(),
            i < old(self).rows_spec().len(),
            same_shape(v, old(self).proto_spec()),
        ensures
            final(self).inv(),
            final(self).proto_spec() == old(self).proto_spec(),
            final(self).rows_spec() == old(self).rows_spec().update(i as int, v),
            final(self).spec_fetch_size() == old(self).spec_fetch_size(),
            final(self).spec_bound() == old(self).spec_bound(),
            final(self).spec_last_size() == old(self).spec_last_size(),
    {
        self.rows[i] = v;
    }

    /// The native calls to issue before the next execute.  The row array is
    /// first restored to its declared capacity (a fetch may have truncated
    /// it); the block's bind calls are issued unless the previous binding is
    /// valid, and the attributes where the capacity changed since they were
    /// last issued.
    pub fn bind(&mut self) -> (r: Result<ColPlan, Error>)
        requires
            old(self).inv(),
            old(self).spec_fetch_size() > 0,
        ensures
            final(self).inv(),
            final(self).proto_spec() == old(self).proto_spec(),
            final(self).spec_fetch_size() == old(self).spec_fetch_size(),
            final(self).rows_spec().len() == old(self).spec_fetch_size(),
            final(self).rows_spec().take(old(self).rows_spec().len() as int) == old(
                self,
            ).rows_spec(),
            forall|j: int|
                old(self).rows_spec().len() <= j < final(self).rows_spec().len() ==> veq(
                    #[trigger] final(self).rows_spec()[j],
                    old(self).proto_spec(),
                ),
            r is Ok <==> supported(old(self).proto_spec()),
            r is Err ==> r->Err_0 == Error::StructuralError && final(self).spec_bound() == old(
                self,
            ).spec_bound() && final(self).spec_last_size() == old(self).spec_last_size(),
            r is Ok ==> final(self).spec_bound() && final(self).spec_last_size() == Some(
                old(self).spec_fetch_size() as usize,
            ),
            r is Ok && old(self).spec_bound() ==> r->Ok_0.binds@.len() == 0,
            r is Ok && !old(self).spec_bound() ==> r->Ok_0.binds@ == col_binds_seq(
                descs_of(final(self).rows_spec()[0], 0),
            ),
            r is Ok && old(self).spec_last_size() == Some(old(self).spec_fetch_size() as usize)
                ==> r->Ok_0.attrs is None,
            r is Ok && old(self).spec_last_size() != Some(old(self).spec_fetch_size() as usize)
                ==> r->Ok_0.attrs == Some(
                RowSetAttrs {
                    row_size: value_size(old(self).proto_spec()) as usize,
                    array_size: old(self).spec_fetch_size() as usize,
                },
            ),
    {
        while self.rows.len() < self.fetch_size
            invariant
                old(self).rows@.len() <= self.rows@.len() <= self.fetch_size,
                self.proto == old(self).proto,
                self.fetch_size == old(self).fetch_size,
                self.bound == old(self).bound,
                self.last_size == old(self).last_size,
                old(self).inv(),
                self.rows@.take(old(self).rows@.len() as int) == old(self).rows@,
                forall|i: int|
                    0 <= i < self.rows@.len() ==> same_shape(
                        #[trigger] self.rows@[i],
                        self.proto,
                    ),
                forall|j: int|
                    old(self).rows@.len() <= j < self.rows@.len() ==> veq(
                        #[trigger] self.rows@[j],
                        self.proto,
                    ),
            decreases self.fetch_size - self.rows@.len(),
        {
            let row = self.proto.duplicate();
            proof {
                lemma_veq_same_shape(row, self.proto);
            }
            self.rows.push(row);
            proof {
                assert(self.rows@.take(old(self).rows@.len() as int) =~= old(self).rows@);
            }
        }
        let binds: Vec<ColBind>;
        if !self.bound {
            proof {
                assert(same_shape(self.rows@[0], self.proto));
                lemma_same_shape_size(self.rows@[0], self.proto);
                lemma_same_shape_supported(self.rows@[0], self.proto);
                lemma_same_shape_descs_len(self.rows@[0], self.proto, 0, 0);
            }
            match traverse(&self.rows[0], 0) {
                Ok(descs) => {
                    binds = bind_cols(&descs);
                    self.bound = true;
                },
                Err(e) => {
                    return Err(e);
                },
            }
        } else {
            binds = Vec::new();
        }
        let size = self.fetch_size;
        let reissue = match self.last_size {
            Some(n) => n != size,
            None => true,
        };
        let attrs = if reissue {
            let row_size = byte_size(&self.proto);
            self.last_size = Some(size);
            Some(RowSetAttrs { row_size, array_size: size })
        } else {
            None
        };
        Ok(ColPlan { binds, attrs })
    }

    /// Truncates the logical rows to what the native layer reported fetched;
    /// zero rows means the fetch sequence is exhausted.
    pub fn fetch(&mut self, rows_fetched: usize) -> (r: bool)
        requires
            old(self).inv(),
            rows_fetched <= old(self).rows_spec().len(),
        ensures
            final(self).inv(),
            final(self).proto_spec() == old(self).proto_spec(),
            final(self).rows_spec() == old(self).rows_spec().take(rows_fetched as int),
            final(self).spec_fetch_size() == old(self).spec_fetch_size(),
            final(self).spec_bound() == old(self).spec_bound(),
            final(self).spec_last_size() == old(self).spec_last_size(),
            r == (rows_fetched != 0),
    {
        self.rows.truncate(rows_fetched);
        proof {
            assert(self.rows@ =~= old(self).rows@.take(rows_fetched as int));
            assert forall|i: int|
                0 <= i < self.rows@.len() implies same_shape(
                #[trigger] self.rows@[i],
                self.proto,
            ) by {
                assert(same_shape(old(self).rows_spec()[i], old(self).proto_spec()));
            }
        }
        rows_fetched != 0
    }

    /// Drops the cached binding, forcing a rebind before the next execute.
    pub fn invalidate(&mut self)
        requires
            old(self).inv(),
        ensures
            final(self).inv(),
            final(self).proto_spec() == old(self).proto_spec(),
            final(self).rows_spec() == old(self).rows_spec(),
            final(self).spec_fetch_size() == old(self).spec_fetch_size(),
            !final(self).spec_bound(),
            final(self).spec_last_size() is None,
    {
        self.bound = false;
        self.last_size = None;
        proof {
            assert forall|i: int|
                0 <= i < self.rows@.len() implies same_shape(
                #[trigger] self.rows@[i],
                self.proto,
            ) by {
                assert(same_shape(old(self).rows_spec()[i], old(self).proto_spec()));
            }
        }
    }
}

} // verus!
