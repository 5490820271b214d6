//! A pure stand-in for the native layer, used to state and check the
//! engine's end-to-end laws: a result set served in row-set blocks, an
//! execute that echoes its parameter record, and a parameter-set
//! submission into a stand-in table.

use vstd::prelude::*;
use vstd::arithmetic::div_mod::lemma_fundamental_div_mod_converse;
use vstd::math::min;
use crate::error::{Error, SQL_NO_DATA, SQL_SUCCESS};
use crate::statement::{ColBinding, ParamBinding, Statement};
use crate::value::{
    lemma_same_shape_supported, lemma_same_shape_trans, lemma_veq_same_shape, same_shape, veq,
    Value,
};

verus! {

/// What the native layer reports for one fetch against a result set with
/// `remaining` rows through a row set of capacity `k`: "no data" once the
/// set is exhausted, else up to `k` rows.
pub fn serve_fetch(remaining: usize, k: usize) -> (r: (i16, usize))
    ensures
        remaining == 0 ==> r.0 == SQL_NO_DATA && r.1 == 0,
        remaining > 0 ==> r.0 == SQL_SUCCESS && r.1 == min(k as int, remaining as int),
{
    if remaining == 0 {
        (SQL_NO_DATA, 0)
    } else if k <= remaining {
        (SQL_SUCCESS, k)
    } else {
        (SQL_SUCCESS, remaining)
    }
}

/// Exactly `n` non-empty fetches serve `total` rows in blocks of `k`: `n`
/// is the ceiling of `total / k`.
pub proof fn lemma_fetch_count_is_ceil(total: int, k: int, n: int)
    requires
        k > 0,
        n >= 0,
        total <= n * k,
        n > 0 ==> total > (n - 1) * k,
        n == 0 ==> total == 0,
    ensures
        n == (total + k - 1) / k,
{
    if n == 0 {
        lemma_fundamental_div_mod_converse(k - 1, k, 0, k - 1);
    } else {
        let r = total - (n - 1) * k;
        assert(n * k == (n - 1) * k + k) by (nonlinear_arith);
        if r == k {
            lemma_fundamental_div_mod_converse(total + k - 1, k, n, k - 1);
        } else {
            lemma_fundamental_div_mod_converse(total + k - 1, k, n, r - 1);
        }
    }
}

/// The last non-empty fetch carries `total % k` rows, or a full `k` where
/// `total` is an exact multiple of the fetch size.
pub proof fn lemma_last_fetch_size(total: int, k: int, n: int)
    requires
        k > 0,
        n > 0,
        total <= n * k,
        total > (n - 1) * k,
    ensures
        min(k, total - (n - 1) * k) == if total % k == 0 {
            k
        } else {
            total % k
        },
{
    let r = total - (n - 1) * k;
    assert(n * k == (n - 1) * k + k) by (nonlinear_arith);
    if r == k {
        lemma_fundamental_div_mod_converse(total, k, n, 0);
    } else {
        lemma_fundamental_div_mod_converse(total, k, n - 1, r);
    }
}

/// Row-set law: executing a row-set statement of fetch size `k` against a
/// result set of `total` rows yields exactly the ceiling of `total / k`
/// non-empty fetches, all full but the last, which carries the remainder,
/// followed by one exhausted fetch.  The returned counts are the non-empty
/// fetches' sizes.
pub fn fetch_all(stmt: &mut Statement, total: usize) -> (r: Result<Vec<usize>, Error>)
    requires
        old(stmt).inv(),
        old(stmt).ready(),
        old(stmt).cols is Rows,
    ensures
        final(stmt).inv(),
        r is Ok <==> old(stmt).params.shape_supported() && old(stmt).cols.shape_supported(),
        r is Err ==> r->Err_0 == Error::StructuralError,
        r is Ok ==> ({
            let k = old(stmt).cols->Rows_0.spec_fetch_size() as int;
            let counts = r->Ok_0@;
            let n = counts.len() as int;
            &&& total <= n * k
            &&& n > 0 ==> total > (n - 1) * k
            &&& n == 0 ==> total == 0
            &&& n == (total + k - 1) / k
            &&& forall|i: int| 0 <= i < n ==> counts[i] == min(k, total - i * k)
            &&& forall|i: int| 0 <= i < n ==> 1 <= #[trigger] counts[i] <= k
            &&& n > 0 ==> counts[n - 1] == (if total as int % k == 0 {
                k
            } else {
                total as int % k
            })
        }),
{
    let ghost k_int = old(stmt).cols->Rows_0.spec_fetch_size() as int;
    match stmt.begin_exec() {
        Ok(_) => {},
        Err(e) => {
            return Err(e);
        },
    }
    match stmt.exec_done(SQL_SUCCESS) {
        Ok(()) => {},
        Err(_) => vstd::pervasive::unreached(),
    }
    let k = stmt.fetch_size();
    let mut counts: Vec<usize> = Vec::new();
    let mut remaining: usize = total;
    while remaining > 0
        invariant
            stmt.inv(),
            stmt.cols is Rows,
            stmt.cols->Rows_0.spec_fetch_size() == k_int,
            k == k_int,
            k > 0,
            remaining > 0 ==> stmt.cols->Rows_0.rows_spec().len() == k_int,
            remaining == 0 || remaining == total - counts@.len() * k_int,
            remaining == 0 ==> total <= counts@.len() * k_int,
            counts@.len() > 0 ==> total > (counts@.len() - 1) * k_int,
            forall|i: int|
                0 <= i < counts@.len() ==> counts@[i] == min(k_int, total - i * k_int),
            forall|i: int| 0 <= i < counts@.len() ==> 1 <= #[trigger] counts@[i] <= k_int,
        decreases remaining,
    {
        let (rc, n) = serve_fetch(remaining, k);
        let more = match stmt.fetch_done(rc, n) {
            Ok(b) => b,
            Err(_) => vstd::pervasive::unreached(),
        };
        proof {
            assert(more);
            let len = counts@.len() as int;
            assert((len + 1) * k_int == len * k_int + k_int) by (nonlinear_arith);
        }
        counts.push(n);
        remaining = remaining - n;
    }
    let (rc, n) = serve_fetch(remaining, k);
    let more = match stmt.fetch_done(rc, n) {
        Ok(b) => b,
        Err(_) => vstd::pervasive::unreached(),
    };
    proof {
        assert(!more);
        let n = counts@.len() as int;
        lemma_fetch_count_is_ceil(total as int, k_int, n);
        if n > 0 {
            lemma_last_fetch_size(total as int, k_int, n);
            assert(counts@[n - 1] == min(k_int, total - (n - 1) * k_int));
        }
    }
    Ok(counts)
}

/// Round-trip law: executing an echo statement, one whose single column
/// record is the statement's own single parameter record (as `SELECT ?`
/// is), deposits a deep copy of the parameter record in the column record;
/// what is read back equals what was written, for every supported shape.
pub fn exec_echo(stmt: &mut Statement) -> (r: Result<(), Error>)
    requires
        old(stmt).inv(),
        old(stmt).ready(),
        old(stmt).params is Single,
        old(stmt).cols is Single,
        same_shape(
            old(stmt).params->Single_0.data_spec(),
            old(stmt).cols->Single_0.data_spec(),
        ),
    ensures
        final(stmt).inv(),
        final(stmt).ready(),
        final(stmt).params is Single,
        final(stmt).cols is Single,
        final(stmt).params->Single_0.data_spec() == old(stmt).params->Single_0.data_spec(),
        r is Ok <==> old(stmt).params.shape_supported(),
        r is Err ==> r->Err_0 == Error::StructuralError,
        r is Ok ==> veq(
            final(stmt).cols->Single_0.data_spec(),
            old(stmt).params->Single_0.data_spec(),
        ),
{
    proof {
        lemma_same_shape_supported(
            old(stmt).params->Single_0.data_spec(),
            old(stmt).cols->Single_0.data_spec(),
        );
    }
    match stmt.begin_exec() {
        Ok(_) => {},
        Err(e) => {
            return Err(e);
        },
    }
    match stmt.exec_done(SQL_SUCCESS) {
        Ok(()) => {},
        Err(_) => vstd::pervasive::unreached(),
    }
    let v: Value = match &stmt.params {
        ParamBinding::Single(p) => p.params().duplicate(),
        _ => vstd::pervasive::unreached(),
    };
    proof {
        lemma_veq_same_shape(v, stmt.params->Single_0.data_spec());
        lemma_same_shape_trans(
            v,
            stmt.params->Single_0.data_spec(),
            stmt.cols->Single_0.data_spec(),
        );
    }
    match &mut stmt.cols {
        ColBinding::Single(c) => c.set(v),
        _ => vstd::pervasive::unreached(),
    }
    Ok(())
}

/// Parameter-set law: one bind and execute of a parameter set of P rows
/// submits exactly those P rows, in order: the stand-in table grows by a
/// deep copy of each submitted row, in submission order, and the reported
/// affected count is P.
pub fn exec_insert(stmt: &mut Statement, table: &mut Vec<Value>) -> (r: Result<usize, Error>)
    requires
        old(stmt).inv(),
        old(stmt).ready(),
        old(stmt).params is Batch,
    ensures
        final(stmt).inv(),
        final(stmt).ready(),
        r is Ok <==> old(stmt).params.shape_supported() && old(stmt).cols.shape_supported(),
        r is Err ==> r->Err_0 == Error::StructuralError && final(table)@ == old(table)@,
        r is Ok ==> ({
            let rows = old(stmt).params->Batch_0.rows_spec();
            &&& r->Ok_0 == rows.len()
            &&& final(table)@.len() == old(table)@.len() + rows.len()
            &&& forall|j: int|
                0 <= j < old(table)@.len() ==> final(table)@[j] == old(table)@[j]
            &&& forall|j: int|
                0 <= j < rows.len() ==> veq(
                    #[trigger] final(table)@[old(table)@.len() + j],
                    rows[j],
                )
        }),
{
    match stmt.begin_exec() {
        Ok(_) => {},
        Err(e) => {
            return Err(e);
        },
    }
    match stmt.exec_done(SQL_SUCCESS) {
        Ok(()) => {},
        Err(_) => vstd::pervasive::unreached(),
    }
    let count: usize;
    match &stmt.params {
        ParamBinding::Batch(p) => {
            let rows = p.params();
            let mut j: usize = 0;
            while j < rows.len()
                invariant
                    j <= rows@.len(),
                    table@.len() == old(table)@.len() + j,
                    forall|i: int| 0 <= i < old(table)@.len() ==> table@[i] == old(table)@[i],
                    forall|i: int|
                        0 <= i < j ==> veq(
                            #[trigger] table@[old(table)@.len() + i],
                            rows@[i],
                        ),
                decreases rows@.len() - j,
            {
                table.push(rows[j].duplicate());
                j = j + 1;
            }
            count = rows.len();
        },
        _ => {
            count = vstd::pervasive::unreached();
        },
    }
    Ok(count)
}

} // verus!
