//! Statement lifecycle: sequences prepare, strategy-driven bind, execute and
//! fetch against the native contract, tracking cursor state.
//!
//! The native calls themselves are made by the embedding program: it asks
//! the statement what to issue before an execute (`begin_exec`), performs
//! the plan, and reports the native return codes back (`exec_done`,
//! `fetch_done`).  The statement decides what must be (re)bound, when the
//! cursor must be closed first, and what a fetch's report means.

use vstd::prelude::*;
use crate::binder::descs_of;
use crate::col_binder::col_binds_seq;
use crate::col_binding::{
    col_plan_calls, empty_col_plan, ColPlan, Cols, NoCols, RowSet, RowSetAttrs,
};
use crate::error::{rc_ok, Error, OdbcResult, SQL_NO_DATA};
use crate::param_binder::param_binds_seq;
use crate::param_binding::{
    empty_param_plan, param_plan_calls, NoParams, ParamPlan, ParamSet, ParamSetAttrs, Params,
};
use crate::value::{supported, value_size, veq};

verus! {

/// The parameter side of a statement: no parameters, one record, or a
/// parameter set submitted as one block.
pub enum ParamBinding {
    Empty(NoParams),
    Single(Params),
    Batch(ParamSet),
}

/// The column side of a statement: no columns, one record, or a row set
/// filled as one block by each fetch.
pub enum ColBinding {
    Empty(NoCols),
    Single(Cols),
    Rows(RowSet),
}

impl ParamBinding {
    /// The underlying strategy's internal invariant.
    pub open spec fn inv(&self) -> bool {
        match self {
            ParamBinding::Empty(_) => true,
            ParamBinding::Single(p) => p.inv(),
            ParamBinding::Batch(p) => p.inv(),
        }
    }

    /// Ready to bind: a parameter set must hold at least one row.
    pub open spec fn ready(&self) -> bool {
        match self {
            ParamBinding::Empty(_) => true,
            ParamBinding::Single(_) => true,
            ParamBinding::Batch(p) => p.rows_spec().len() > 0,
        }
    }

    /// The bound record's shape is one the traversal protocol accepts.
    pub open spec fn shape_supported(&self) -> bool {
        match self {
            ParamBinding::Empty(_) => true,
            ParamBinding::Single(p) => supported(p.data_spec()),
            ParamBinding::Batch(p) => supported(p.proto_spec()),
        }
    }

    /// Nothing would be issued by the next bind: storage unmoved and, for a
    /// parameter set, the submitted row count unchanged.
    pub open spec fn fully_cached(&self) -> bool {
        match self {
            ParamBinding::Empty(_) => true,
            ParamBinding::Single(p) => p.spec_bound(),
            ParamBinding::Batch(p) => p.spec_bound() && p.spec_last_size() == Some(
                p.rows_spec().len() as usize,
            ),
        }
    }

    /// Same strategy kind with the same observable data.
    pub open spec fn same_data(a: ParamBinding, b: ParamBinding) -> bool {
        match (a, b) {
            (ParamBinding::Empty(_), ParamBinding::Empty(_)) => true,
            (ParamBinding::Single(x), ParamBinding::Single(y)) => x.data_spec() == y.data_spec(),
            (ParamBinding::Batch(x), ParamBinding::Batch(y)) => x.proto_spec() == y.proto_spec()
                && x.rows_spec() == y.rows_spec(),
            _ => false,
        }
    }
}

impl ColBinding {
    /// The underlying strategy's internal invariant.
    pub open spec fn inv(&self) -> bool {
        match self {
            ColBinding::Empty(_) => true,
            ColBinding::Single(c) => c.inv(),
            ColBinding::Rows(c) => c.inv(),
        }
    }

    /// Ready to bind: a row set must have a positive fetch size.
    pub open spec fn ready(&self) -> bool {
        match self {
            ColBinding::Empty(_) => true,
            ColBinding::Single(_) => true,
            ColBinding::Rows(c) => c.spec_fetch_size() > 0,
        }
    }

    /// The bound record's shape is one the traversal protocol accepts.
    pub open spec fn shape_supported(&self) -> bool {
        match self {
            ColBinding::Empty(_) => true,
            ColBinding::Single(c) => supported(c.data_spec()),
            ColBinding::Rows(c) => supported(c.proto_spec()),
        }
    }

    /// Nothing would be issued by the next bind: storage unmoved and, for a
    /// row set, the announced capacity unchanged.
    pub open spec fn fully_cached(&self) -> bool {
        match self {
            ColBinding::Empty(_) => true,
            ColBinding::Single(c) => c.spec_bound(),
            ColBinding::Rows(c) => c.spec_bound() && c.spec_last_size() == Some(
                c.spec_fetch_size() as usize,
            ),
        }
    }

    /// Same strategy kind with the same declared shape; a row set's logical
    /// rows may differ (binds and fetches resize them).
    pub open spec fn same_shape_kind(a: ColBinding, b: ColBinding) -> bool {
        match (a, b) {
            (ColBinding::Empty(_), ColBinding::Empty(_)) => true,
            (ColBinding::Single(x), ColBinding::Single(y)) => x.data_spec() == y.data_spec(),
            (ColBinding::Rows(x), ColBinding::Rows(y)) => x.proto_spec() == y.proto_spec()
                && x.spec_fetch_size() == y.spec_fetch_size(),
            _ => false,
        }
    }
}

/// The parameter plan the strategy `b` yields when it binds: nothing while
/// its previous binding is valid, else one bind call per primitive field of
/// its record (for a parameter set, of its first row), with the
/// parameter-set attributes where the submitted row count changed since
/// they were last issued.
pub open spec fn param_plan_of(b: ParamBinding, p: ParamPlan) -> bool {
    match b {
        ParamBinding::Empty(_) => empty_param_plan(p),
        ParamBinding::Single(s) => {
            &&& p.attrs is None
            &&& (s.spec_bound() ==> p.binds@.len() == 0)
            &&& (!s.spec_bound() ==> p.binds@ == param_binds_seq(descs_of(s.data_spec(), 0)))
        },
        ParamBinding::Batch(s) => {
            &&& (s.spec_bound() ==> p.binds@.len() == 0)
            &&& (!s.spec_bound() && s.rows_spec().len() > 0 ==> p.binds@ == param_binds_seq(
                descs_of(s.rows_spec()[0], 0),
            ))
            &&& (s.spec_last_size() == Some(s.rows_spec().len() as usize) ==> p.attrs is None)
            &&& (s.spec_last_size() != Some(s.rows_spec().len() as usize) ==> p.attrs == Some(
                ParamSetAttrs {
                    row_size: value_size(s.proto_spec()) as usize,
                    set_size: s.rows_spec().len() as usize,
                },
            ))
        },
    }
}

/// The column plan the strategy yields when it binds, stated over its state
/// before the bind (`b`) and after it (`b_new`, whose restored rows the
/// block bind describes): nothing while the previous binding is valid, else
/// one bind call per primitive field of the (first) record, with the
/// row-set attributes where the declared capacity changed since they were
/// last issued.
pub open spec fn col_plan_of(b: ColBinding, b_new: ColBinding, p: ColPlan) -> bool {
    match (b, b_new) {
        (ColBinding::Empty(_), ColBinding::Empty(_)) => empty_col_plan(p),
        (ColBinding::Single(s), ColBinding::Single(_)) => {
            &&& p.attrs is None
            &&& (s.spec_bound() ==> p.binds@.len() == 0)
            &&& (!s.spec_bound() ==> p.binds@ == col_binds_seq(descs_of(s.data_spec(), 0)))
        },
        (ColBinding::Rows(s), ColBinding::Rows(t)) => {
            &&& (s.spec_bound() ==> p.binds@.len() == 0)
            &&& (!s.spec_bound() && t.rows_spec().len() > 0 ==> p.binds@ == col_binds_seq(
                descs_of(t.rows_spec()[0], 0),
            ))
            &&& (s.spec_last_size() == Some(s.spec_fetch_size() as usize) ==> p.attrs is None)
            &&& (s.spec_last_size() != Some(s.spec_fetch_size() as usize) ==> p.attrs == Some(
                RowSetAttrs {
                    row_size: value_size(s.proto_spec()) as usize,
                    array_size: s.spec_fetch_size() as usize,
                },
            ))
        },
        _ => false,
    }
}

/// Everything the embedding program must issue natively for one execute, in
/// order: close the open cursor first where one is open, then the parameter
/// and column bind calls and attributes, then the execute itself.
pub struct ExecPlan {
    /// A cursor from a previous fetch sequence is still open and must be
    /// closed before binding and executing again.
    pub close_cursor: bool,
    /// The parameter side's native calls.
    pub params: ParamPlan,
    /// The column side's native calls.
    pub cols: ColPlan,
}

/// Number of native bind/attribute calls an execute plan issues.
pub open spec fn exec_plan_calls(p: ExecPlan) -> nat {
    param_plan_calls(p.params) + col_plan_calls(p.cols)
}

/// A statement over a prepared native handle: its binding strategies and its
/// locally tracked cursor state.
pub struct Statement {
    /// The parameter side.
    pub params: ParamBinding,
    /// The column side.
    pub cols: ColBinding,
    /// A cursor from a previous fetch sequence is still open; set by
    /// `fetch_done`, cleared when an execute plan closed it.
    pub is_positioned: bool,
}

impl Statement {
    /// Both strategies' invariants hold.
    pub open spec fn inv(&self) -> bool {
        self.params.inv() && self.cols.inv()
    }

    /// Both strategies are ready to bind.
    pub open spec fn ready(&self) -> bool {
        self.params.ready() && self.cols.ready()
    }

    /// A cursor from a previous fetch sequence is still open.
    pub open spec fn spec_positioned(&self) -> bool {
        self.is_positioned
    }

    /// A fresh statement over the given strategies, cursor closed.
    pub fn new(params: ParamBinding, cols: ColBinding) -> (r: Statement)
        requires
            params.inv(),
            cols.inv(),
        ensures
            r.inv(),
            r.params == params,
            r.cols == cols,
            !r.spec_positioned(),
    {
        Statement { params, cols, is_positioned: false }
    }

    /// A fresh row-set statement with the given fetch size already declared.
    pub fn with_fetch_size(params: ParamBinding, cols: RowSet, fetch_size: usize) -> (r: Statement)
        requires
            params.inv(),
            cols.inv(),
        ensures
            r.inv(),
            r.params == params,
            r.cols is Rows,
            r.cols->Rows_0.proto_spec() == cols.proto_spec(),
            r.cols->Rows_0.spec_fetch_size() >= fetch_size,
            fetch_size > cols.spec_fetch_size() ==> r.cols->Rows_0.spec_fetch_size() == fetch_size
                && !r.cols->Rows_0.spec_bound() && !r.cols.fully_cached(),
            fetch_size <= cols.spec_fetch_size() ==> r.cols->Rows_0.spec_fetch_size()
                == cols.spec_fetch_size() && r.cols->Rows_0 == cols,
            r.cols->Rows_0.rows_spec() == cols.rows_spec(),
            r.cols->Rows_0.spec_last_size() == cols.spec_last_size(),
            r.cols->Rows_0.spec_bound() ==> cols.spec_bound(),
            !r.spec_positioned(),
    {
        let mut cols = cols;
        cols.set_fetch_size(fetch_size);
        Statement { params, cols: ColBinding::Rows(cols), is_positioned: false }
    }

    /// The declared fetch size of a row-set statement.
    pub fn fetch_size(&self) -> (r: usize)
        requires
            self.cols is Rows,
        ensures
            r == self.cols->Rows_0.spec_fetch_size(),
    {
        match &self.cols {
            ColBinding::Rows(c) => c.fetch_size(),
            _ => 0,
        }
    }

    /// Grows the declared fetch size of a row-set statement; shrinking is a
    /// no-op.  Growth forces a rebind before the next execute.
    pub fn set_fetch_size(&mut self, size: usize)
        requires
            old(self).inv(),
            old(self).cols is Rows,
        ensures
            final(self).inv(),
            final(self).params == old(self).params,
            final(self).spec_positioned() == old(self).spec_positioned(),
            final(self).cols is Rows,
            final(self).cols->Rows_0.proto_spec() == old(self).cols->Rows_0.proto_spec(),
            final(self).cols->Rows_0.rows_spec() == old(self).cols->Rows_0.rows_spec(),
            size > old(self).cols->Rows_0.spec_fetch_size() ==> final(self).cols->Rows_0.spec_fetch_size() == size && !final(self).cols.fully_cached(),
            size <= old(self).cols->Rows_0.spec_fetch_size() ==> final(self).cols == old(
                self,
            ).cols,
    {
        match &mut self.cols {
            ColBinding::Rows(c) => c.set_fetch_size(size),
            _ => {},
        }
    }

    /// Begins one execute cycle: decides whether the open cursor must be
    /// closed first, and lets each strategy decide what to (re)bind.  The
    /// returned plan holds every native call to issue, in order, ending with
    /// the execute itself; `exec_done` then takes the outcome.
    pub fn begin_exec(&mut self) -> (r: Result<ExecPlan, Error>)
        requires
            old(self).inv(),
            old(self).ready(),
        ensures
            final(self).inv(),
            final(self).ready(),
            final(self).spec_positioned() == old(self).spec_positioned(),
            ParamBinding::same_data(final(self).params, old(self).params),
            ColBinding::same_shape_kind(final(self).cols, old(self).cols),
            r is Ok <==> old(self).params.shape_supported() && old(self).cols.shape_supported(),
            r is Err ==> r->Err_0 == Error::StructuralError,
            r is Ok ==> r->Ok_0.close_cursor == old(self).spec_positioned(),
            r is Ok ==> final(self).params.fully_cached() && final(self).cols.fully_cached(),
            r is Ok && old(self).params.fully_cached() ==> empty_param_plan(r->Ok_0.params),
            r is Ok && old(self).cols.fully_cached() ==> empty_col_plan(r->Ok_0.cols),
            r is Ok && old(self).params.fully_cached() && old(self).cols.fully_cached()
                ==> exec_plan_calls(r->Ok_0) == 0,
            r is Ok ==> param_plan_of(old(self).params, r->Ok_0.params),
            r is Ok ==> col_plan_of(old(self).cols, final(self).cols, r->Ok_0.cols),
            r is Ok && old(self).cols is Rows ==> final(self).cols->Rows_0.rows_spec().len() == old(
                self,
            ).cols->Rows_0.spec_fetch_size(),
            r is Ok && old(self).cols is Rows ==> final(self).cols->Rows_0.rows_spec().take(
                old(self).cols->Rows_0.rows_spec().len() as int,
            ) == old(self).cols->Rows_0.rows_spec(),
            r is Ok && old(self).cols is Rows ==> forall|j: int|
                old(self).cols->Rows_0.rows_spec().len() <= j
                    < final(self).cols->Rows_0.rows_spec().len() ==> veq(
                    #[trigger] final(self).cols->Rows_0.rows_spec()[j],
                    old(self).cols->Rows_0.proto_spec(),
                ),
    {
        let close_cursor = self.is_positioned;
        let param_plan = match &mut self.params {
            ParamBinding::Empty(p) => p.bind(),
            ParamBinding::Single(p) => p.bind(),
            ParamBinding::Batch(p) => p.bind(),
        };
        let param_plan = match param_plan {
            Ok(p) => p,
            Err(e) => {
                return Err(e);
            },
        };
        let col_plan = match &mut self.cols {
            ColBinding::Empty(c) => c.bind(),
            ColBinding::Single(c) => c.bind(),
            ColBinding::Rows(c) => c.bind(),
        };
        let col_plan = match col_plan {
            Ok(c) => c,
            Err(e) => {
                return Err(e);
            },
        };
        Ok(ExecPlan { close_cursor, params: param_plan, cols: col_plan })
    }

    /// Takes the outcome of performing an execute plan.  On success the
    /// cursor is considered closed (the plan closed any open one) and the
    /// cached bindings stand.  On failure the attempt is abandoned: the
    /// error is returned unmodified, and the cached bindings are dropped so
    /// the next execute rebinds from scratch.
    pub fn exec_done(&mut self, rc: i16) -> (r: Result<(), Error>)
        requires
            old(self).inv(),
        ensures
            final(self).inv(),
            final(self).ready() == old(self).ready(),
            ParamBinding::same_data(final(self).params, old(self).params),
            ColBinding::same_shape_kind(final(self).cols, old(self).cols),
            rc_ok(rc) ==> r is Ok && final(self).params == old(self).params && final(self).cols
                == old(self).cols && !final(self).spec_positioned(),
            !rc_ok(rc) ==> {
                &&& r == Result::<(), Error>::Err(Error::Odbc(rc))
                &&& final(self).spec_positioned() == old(self).spec_positioned()
                &&& (final(self).params is Empty || !final(self).params.fully_cached())
                &&& (final(self).cols is Empty || !final(self).cols.fully_cached())
                &&& (final(self).cols is Rows ==> final(self).cols->Rows_0.rows_spec() == old(
                    self,
                ).cols->Rows_0.rows_spec())
            },
    {
        match rc.check() {
            Ok(()) => {
                self.is_positioned = false;
                Ok(())
            },
            Err(e) => {
                match &mut self.params {
                    ParamBinding::Empty(_) => {},
                    ParamBinding::Single(p) => p.invalidate(),
                    ParamBinding::Batch(p) => p.invalidate(),
                }
                match &mut self.cols {
                    ColBinding::Empty(_) => {},
                    ColBinding::Single(c) => c.invalidate(),
                    ColBinding::Rows(c) => c.invalidate(),
                }
                Err(e)
            },
        }
    }

    /// Takes the outcome of one native fetch.  A non-success, non-"no data"
    /// code is a failure, returned unmodified.  "No data" means the fetch
    /// sequence is exhausted: no rows were produced.  Otherwise the column
    /// strategy decides: a row set truncates its logical rows to what the
    /// native layer reported fetched and reports whether any came.
    pub fn fetch_done(&mut self, rc: i16, rows_fetched: usize) -> (r: Result<bool, Error>)
        requires
            old(self).inv(),
            old(self).cols is Rows ==> rows_fetched <= old(self).cols->Rows_0.rows_spec().len(),
        ensures
            final(self).inv(),
            final(self).params == old(self).params,
            ColBinding::same_shape_kind(final(self).cols, old(self).cols),
            !rc_ok(rc) ==> r == Result::<bool, Error>::Err(Error::Odbc(rc)) && *final(self) == *old(
                self,
            ),
            rc_ok(rc) ==> final(self).spec_positioned(),
            rc_ok(rc) ==> final(self).cols.fully_cached() == old(self).cols.fully_cached(),
            rc == SQL_NO_DATA ==> r == Result::<bool, Error>::Ok(false) && final(self).cols == old(
                self,
            ).cols,
            rc_ok(rc) && rc != SQL_NO_DATA && !(old(self).cols is Rows) ==> r == Result::<
                bool,
                Error,
            >::Ok(true) && final(self).cols == old(self).cols,
            rc_ok(rc) && rc != SQL_NO_DATA && old(self).cols is Rows ==> r == Result::<
                bool,
                Error,
            >::Ok(rows_fetched != 0) && final(self).cols->Rows_0.rows_spec() == old(
                self,
            ).cols->Rows_0.rows_spec().take(rows_fetched as int),
    {
        match rc.check() {
            Ok(()) => {},
            Err(e) => {
                return Err(e);
            },
        }
        self.is_positioned = true;
        if rc == SQL_NO_DATA {
            return Ok(false);
        }
        match &mut self.cols {
            ColBinding::Empty(c) => Ok(c.fetch()),
            ColBinding::Single(c) => Ok(c.fetch()),
            ColBinding::Rows(c) => Ok(c.fetch(rows_fetched)),
        }
    }
}

} // verus!
