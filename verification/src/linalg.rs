//! Products of dense tables and vectors, and elementwise conjugation.
//!
//! A scalar type's arithmetic is not modelled, so a product is specified by
//! how it is built from the type's own operations: which values are
//! multiplied, and in which order the products are summed.

use crate::table::rows_view;
use crate::table::Grid;
use crate::table::Table;
use crate::types::is_conj;
use crate::types::is_deterministic;
use crate::types::is_product;
use crate::types::is_sum;
use crate::types::is_zero;
use crate::types::Scalar;
use vstd::prelude::*;

verus! {

/// `r` is the sum of the first `n` products `x[k] * y[k]`, taken from a
/// zero and added one by one in increasing `k`.
pub open spec fn is_partial_dot<A: Scalar>(x: Seq<A>, y: Seq<A>, n: nat, r: A) -> bool
    recommends
        n <= x.len(),
        n <= y.len(),
    decreases n,
{
    if n == 0 {
        is_zero(r)
    } else {
        exists|acc: A, p: A|
            is_partial_dot(x, y, (n - 1) as nat, acc) && is_product(x[n - 1], y[n - 1], p)
                && #[trigger] is_sum(acc, p, r)
    }
}

/// `r` is the inner product of `x` and `y` without conjugation: the sum of
/// all products `x[k] * y[k]`.
pub open spec fn is_dot<A: Scalar>(x: Seq<A>, y: Seq<A>, r: A) -> bool {
    x.len() == y.len() && is_partial_dot(x, y, x.len(), r)
}

/// `out` is the matrix-vector product of `m` and `v`: entry `i` is the
/// inner product of row `i` of `m` with `v`.
pub open spec fn is_mat_vec<A: Scalar>(m: Grid<A>, v: Seq<A>, out: Seq<A>) -> bool {
    &&& out.len() == m.nrows()
    &&& forall|i: int| 0 <= i < m.nrows() ==> is_dot(m.rows[i], v, #[trigger] out[i])
}

/// `out` is the matrix-matrix product of `a` and `b`: the entry in row `i`
/// and column `k` is the inner product of row `i` of `a` with column `k` of
/// `b`.
pub open spec fn is_mat_mat<A: Scalar>(a: Grid<A>, b: Grid<A>, out: Grid<A>) -> bool {
    &&& out.wf()
    &&& out.nrows() == a.nrows()
    &&& out.ncols == b.ncols
    &&& forall|i: int, k: int|
        0 <= i < a.nrows() && 0 <= k < b.ncols ==> is_dot(
            a.rows[i],
            b.column(k),
            #[trigger] out.rows[i][k],
        )
}

/// `out` holds the conjugates of the entries of `v`, in order.
pub open spec fn is_conj_seq<A: Scalar>(v: Seq<A>, out: Seq<A>) -> bool {
    &&& out.len() == v.len()
    &&& forall|i: int| 0 <= i < v.len() ==> is_conj(v[i], #[trigger] out[i])
}

/// `out` has the shape of `g` and holds the conjugates of its entries.
pub open spec fn is_conj_grid<A: Scalar>(g: Grid<A>, out: Grid<A>) -> bool {
    &&& out.ncols == g.ncols
    &&& out.nrows() == g.nrows()
    &&& forall|i: int| 0 <= i < g.nrows() ==> is_conj_seq(g.rows[i], #[trigger] out.rows[i])
}

/// `out` is the product of the conjugate transpose of `m` with `v`, computed
/// without forming the conjugate of `m`: the entries of `v` are conjugated,
/// the transpose of `m` is multiplied with the result, and the entries of
/// that product are conjugated.
pub open spec fn is_conj_mat_vec<A: Scalar>(m: Grid<A>, v: Seq<A>, out: Seq<A>) -> bool {
    exists|c: Seq<A>, p: Seq<A>|
        is_conj_seq(v, c) && #[trigger] is_mat_vec(m.transpose(), c, p) && is_conj_seq(p, out)
}

/// Column `k` of a matrix-matrix product is the matrix-vector product with
/// column `k` of the right factor.
pub proof fn lemma_mat_mat_column<A: Scalar>(a: Grid<A>, b: Grid<A>, out: Grid<A>, k: int)
    requires
        is_mat_mat(a, b, out),
        0 <= k < b.ncols,
    ensures
        is_mat_vec(a, b.column(k), out.column(k)),
{
    assert forall|i: int| 0 <= i < a.nrows() implies is_dot(
        a.rows[i],
        b.column(k),
        #[trigger] out.column(k)[i],
    ) by {
        assert(out.column(k)[i] == out.rows[i][k]);
    }
}

/// Column `j` of a conjugated table holds the conjugates of column `j`.
pub proof fn lemma_conj_grid_column<A: Scalar>(g: Grid<A>, out: Grid<A>, j: int)
    requires
        g.wf(),
        is_conj_grid(g, out),
        0 <= j < g.ncols,
    ensures
        is_conj_seq(g.column(j), out.column(j)),
{
    assert forall|i: int| 0 <= i < g.nrows() implies is_conj(
        g.column(j)[i],
        #[trigger] out.column(j)[i],
    ) by {
        assert(is_conj_seq(g.rows[i], out.rows[i]));
        assert(is_conj(g.rows[i][j], out.rows[i][j]));
    }
}

/// For a scalar type without an imaginary part the product with the
/// conjugate transpose is the product with the transpose.
pub proof fn lemma_real_conj_mat_vec<A: Scalar>(m: Grid<A>, v: Seq<A>, out: Seq<A>)
    requires
        crate::types::conj_is_identity::<A>(),
        is_conj_mat_vec(m, v, out),
    ensures
        is_mat_vec(m.transpose(), v, out),
{
    let (c, p) = choose|c: Seq<A>, p: Seq<A>|
        is_conj_seq(v, c) && #[trigger] is_mat_vec(m.transpose(), c, p) && is_conj_seq(p, out);
    assert(c =~= v);
    assert(p =~= out);
}

/// Where the operations of the scalar type have one result each, so has a
/// partial inner product.
pub proof fn lemma_partial_dot_determined<A: Scalar>(x: Seq<A>, y: Seq<A>, n: nat, r1: A, r2: A)
    requires
        is_deterministic::<A>(),
        is_partial_dot(x, y, n, r1),
        is_partial_dot(x, y, n, r2),
    ensures
        r1 == r2,
    decreases n,
{
    if n > 0 {
        let (acc1, p1) = choose|acc: A, p: A|
            is_partial_dot(x, y, (n - 1) as nat, acc) && is_product(x[n - 1], y[n - 1], p)
                && #[trigger] is_sum(acc, p, r1);
        let (acc2, p2) = choose|acc: A, p: A|
            is_partial_dot(x, y, (n - 1) as nat, acc) && is_product(x[n - 1], y[n - 1], p)
                && #[trigger] is_sum(acc, p, r2);
        lemma_partial_dot_determined(x, y, (n - 1) as nat, acc1, acc2);
        assert(p1 == p2);
        assert(is_sum(acc1, p1, r1) && is_sum(acc1, p1, r2));
    }
}

/// Where the operations of the scalar type have one result each, so has
/// the matrix-vector product.
pub proof fn lemma_mat_vec_determined<A: Scalar>(m: Grid<A>, v: Seq<A>, out1: Seq<A>, out2: Seq<A>)
    requires
        is_deterministic::<A>(),
        is_mat_vec(m, v, out1),
        is_mat_vec(m, v, out2),
    ensures
        out1 == out2,
{
    assert forall|i: int| 0 <= i < m.nrows() implies out1[i] == out2[i] by {
        lemma_partial_dot_determined(m.rows[i], v, m.rows[i].len(), out1[i], out2[i]);
    }
    assert(out1 =~= out2);
}

/// Where conjugation has one result, so has the conjugation of a vector.
pub proof fn lemma_conj_seq_determined<A: Scalar>(v: Seq<A>, out1: Seq<A>, out2: Seq<A>)
    requires
        is_deterministic::<A>(),
        is_conj_seq(v, out1),
        is_conj_seq(v, out2),
    ensures
        out1 == out2,
{
    assert forall|i: int| 0 <= i < v.len() implies out1[i] == out2[i] by {
        assert(is_conj(v[i], out1[i]) && is_conj(v[i], out2[i]));
    }
    assert(out1 =~= out2);
}

/// Where the operations of the scalar type have one result each, so has
/// the product with the conjugate transpose.
pub proof fn lemma_conj_mat_vec_determined<A: Scalar>(
    m: Grid<A>,
    v: Seq<A>,
    out1: Seq<A>,
    out2: Seq<A>,
)
    requires
        is_deterministic::<A>(),
        is_conj_mat_vec(m, v, out1),
        is_conj_mat_vec(m, v, out2),
    ensures
        out1 == out2,
{
    let (c1, p1) = choose|c: Seq<A>, p: Seq<A>|
        is_conj_seq(v, c) && #[trigger] is_mat_vec(m.transpose(), c, p) && is_conj_seq(p, out1);
    let (c2, p2) = choose|c: Seq<A>, p: Seq<A>|
        is_conj_seq(v, c) && #[trigger] is_mat_vec(m.transpose(), c, p) && is_conj_seq(p, out2);
    lemma_conj_seq_determined(v, c1, c2);
    lemma_mat_vec_determined(m.transpose(), c1, p1, p2);
    lemma_conj_seq_determined(p1, out1, out2);
}

/// The inner product of `x` and `y` without conjugation.
pub fn dot<A: Scalar>(x: &Vec<A>, y: &Vec<A>) -> (r: A)
    requires
        x@.len() == y@.len(),
    ensures
        is_dot(x@, y@, r),
{
    let mut acc = A::zero();
    let mut k: usize = 0;
    while k < x.len()
        invariant
            x@.len() == y@.len(),
            k <= x@.len(),
            is_partial_dot(x@, y@, k as nat, acc),
        decreases x.len() - k,
    {
        let p = x[k].mul(y[k]);
        let sum = acc.add(p);
        assert(is_sum(acc, p, sum));
        acc = sum;
        k += 1;
    }
    acc
}

/// The matrix-vector product of `m` and `v`.
pub fn mat_vec<A: Scalar>(m: &Table<A>, v: &Vec<A>) -> (out: Vec<A>)
    requires
        v@.len() == m@.ncols,
    ensures
        is_mat_vec(m@, v@, out@),
{
    proof {
        use_type_invariant(m);
    }
    let nrows = m.nrows();
    let mut out: Vec<A> = Vec::new();
    let mut i: usize = 0;
    while i < nrows
        invariant
            m@.wf(),
            nrows == m@.nrows(),
            v@.len() == m@.ncols,
            i <= nrows,
            out@.len() == i,
            forall|k: int| 0 <= k < i ==> is_dot(m@.rows[k], v@, #[trigger] out@[k]),
        decreases nrows - i,
    {
        assert(m@.rows[i as int].len() == m@.ncols);
        let r = dot(m.row(i), v);
        out.push(r);
        i += 1;
    }
    out
}

/// The matrix-matrix product of `a` and `b`.
pub fn mat_mat<A: Scalar>(a: &Table<A>, b: &Table<A>) -> (out: Table<A>)
    requires
        a@.ncols == b@.nrows(),
    ensures
        is_mat_mat(a@, b@, out@),
{
    proof {
        use_type_invariant(a);
        use_type_invariant(b);
        b@.lemma_transpose();
    }
    let bt = b.transpose();
    let nrows = a.nrows();
    let ncols = b.ncols();
    let mut rows: Vec<Vec<A>> = Vec::new();
    let mut i: usize = 0;
    while i < nrows
        invariant
            a@.wf(),
            b@.wf(),
            a@.ncols == b@.nrows(),
            bt@ == b@.transpose(),
            bt@.nrows() == b@.ncols,
            forall|k: int| 0 <= k < b@.ncols ==> #[trigger] bt@.rows[k] == b@.column(k),
            nrows == a@.nrows(),
            ncols == b@.ncols,
            i <= nrows,
            rows@.len() == i,
            forall|h: int| 0 <= h < i ==> (#[trigger] rows@[h])@.len() == ncols,
            forall|h: int, k: int|
                0 <= h < i && 0 <= k < ncols ==> is_dot(
                    a@.rows[h],
                    b@.column(k),
                    #[trigger] rows@[h]@[k],
                ),
        decreases nrows - i,
    {
        let mut row: Vec<A> = Vec::new();
        let mut k: usize = 0;
        while k < ncols
            invariant
                a@.wf(),
                a@.ncols == b@.nrows(),
                bt@.nrows() == b@.ncols,
                forall|k: int| 0 <= k < b@.ncols ==> #[trigger] bt@.rows[k] == b@.column(k),
                ncols == b@.ncols,
                i < a@.nrows(),
                k <= ncols,
                row@.len() == k,
                forall|l: int|
                    0 <= l < k ==> is_dot(a@.rows[i as int], b@.column(l), #[trigger] row@[l]),
            decreases ncols - k,
        {
            assert(a@.rows[i as int].len() == a@.ncols);
            assert(bt@.rows[k as int] == b@.column(k as int));
            let r = dot(a.row(i), bt.row(k));
            row.push(r);
            k += 1;
        }
        rows.push(row);
        i += 1;
    }
    let ghost g = Grid { ncols: ncols as nat, rows: rows_view(rows@) };
    assert(g.wf());
    let out = Table::from_rows(ncols, rows).unwrap();
    out
}

/// The conjugates of the entries of `v`, in order.
pub fn conj_vec<A: Scalar>(v: &Vec<A>) -> (out: Vec<A>)
    ensures
        is_conj_seq(v@, out@),
{
    let mut out: Vec<A> = Vec::new();
    let mut i: usize = 0;
    while i < v.len()
        invariant
            i <= v@.len(),
            out@.len() == i,
            forall|k: int| 0 <= k < i ==> is_conj(v@[k], #[trigger] out@[k]),
        decreases v.len() - i,
    {
        let c = v[i].conj();
        out.push(c);
        i += 1;
    }
    out
}

/// The table of the conjugates of the entries of `t`.
pub fn conj_table<A: Scalar>(t: &Table<A>) -> (out: Table<A>)
    ensures
        is_conj_grid(t@, out@),
{
    proof {
        use_type_invariant(t);
    }
    let nrows = t.nrows();
    let ncols = t.ncols();
    let mut rows: Vec<Vec<A>> = Vec::new();
    let mut i: usize = 0;
    while i < nrows
        invariant
            t@.wf(),
            nrows == t@.nrows(),
            ncols == t@.ncols,
            i <= nrows,
            rows@.len() == i,
            forall|h: int| 0 <= h < i ==> is_conj_seq(t@.rows[h], (#[trigger] rows@[h])@),
        decreases nrows - i,
    {
        let row = conj_vec(t.row(i));
        rows.push(row);
        i += 1;
    }
    let ghost g = Grid { ncols: ncols as nat, rows: rows_view(rows@) };
    assert(g.wf()) by {
        assert forall|h: int| 0 <= h < g.rows.len() implies (#[trigger] g.rows[h]).len()
            == g.ncols by {
            assert(is_conj_seq(t@.rows[h], rows@[h]@));
        }
    }
    let out = Table::from_rows(ncols, rows).unwrap();
    out
}

} // verus!
