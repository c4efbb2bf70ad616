//! The linear-operator interface: products with a vector, with a batch of
//! vectors, and the same for the conjugate adjoint.
//!
//! An operator has to supply the products with one vector. The products
//! with a batch are derived from them column by column, unless the
//! operator has a cheaper way.

use crate::table::rows_view;
use crate::table::Grid;
use crate::table::Table;
use crate::types::Scalar;
use vstd::prelude::*;

verus! {

/// A linear operator from vectors of length `ncols` to vectors of length
/// `nrows`.
pub trait MatVec {
    /// The scalar type of the vectors.
    type A: Scalar;

    /// The number of rows of the operator.
    spec fn spec_nrows(&self) -> nat;

    /// The number of columns of the operator.
    spec fn spec_ncols(&self) -> nat;

    /// `out` is a product of the operator with `vec`. What the operator
    /// computes need not be a function of `vec`: this is the relation
    /// between an argument and what [`MatVec::matvec`] returns for it.
    spec fn maps(&self, vec: Seq<Self::A>, out: Seq<Self::A>) -> bool;

    /// Returns the number of rows of the operator.
    fn nrows(&self) -> (n: usize)
        ensures
            n == self.spec_nrows(),
    ;

    /// Returns the number of columns of the operator.
    fn ncols(&self) -> (n: usize)
        ensures
            n == self.spec_ncols(),
    ;

    /// Returns the product of the operator with a vector of length
    /// `ncols`: a vector of length `nrows`.
    fn matvec(&self, vec: &Vec<Self::A>) -> (out: Vec<Self::A>)
        requires
            vec@.len() == self.spec_ncols(),
        ensures
            out@.len() == self.spec_nrows(),
            self.maps(vec@, out@),
    ;
}

/// The product of a linear operator with a table, each of whose columns is
/// one vector of a batch.
pub trait MatMat: MatVec {
    /// Returns the product of the operator with a table of `ncols` rows:
    /// a table of `nrows` rows whose column `j` is a product of the
    /// operator with column `j` of `mat`.
    ///
    /// Unless an operator brings its own, this is
    /// [`matmat_by_columns`].
    fn matmat(&self, mat: &Table<Self::A>) -> (out: Table<Self::A>)
        requires
            mat@.nrows() == self.spec_ncols(),
        ensures
            out@.wf(),
            out@.nrows() == self.spec_nrows(),
            out@.ncols == mat@.ncols,
            forall|j: int|
                0 <= j < mat@.ncols ==> self.maps(mat@.column(j), #[trigger] out@.column(j)),
    {
        matmat_by_columns(self, mat)
    }
}

/// The product of the conjugate adjoint of an operator with a vector. For
/// a matrix `M` this is the action of `M^H`.
pub trait ConjMatVec: MatVec {
    /// `out` is a product of the conjugate adjoint of the operator with
    /// `vec`: the relation between an argument and what
    /// [`ConjMatVec::conj_matvec`] returns for it.
    spec fn conj_maps(&self, vec: Seq<Self::A>, out: Seq<Self::A>) -> bool;

    /// Returns the product of the conjugate adjoint of the operator with a
    /// vector of length `nrows`: a vector of length `ncols`.
    fn conj_matvec(&self, vec: &Vec<Self::A>) -> (out: Vec<Self::A>)
        requires
            vec@.len() == self.spec_nrows(),
        ensures
            out@.len() == self.spec_ncols(),
            self.conj_maps(vec@, out@),
    ;
}

/// The product of the conjugate adjoint of an operator with a table, each
/// of whose columns is one vector of a batch.
pub trait ConjMatMat: MatMat + ConjMatVec {
    /// Returns the product of the conjugate adjoint of the operator with
    /// a table of `nrows` rows: a table of `ncols` rows whose column `j` is
    /// a product of the conjugate adjoint with column `j` of `mat`.
    ///
    /// Unless an operator brings its own, this is
    /// [`conj_matmat_by_columns`].
    fn conj_matmat(&self, mat: &Table<Self::A>) -> (out: Table<Self::A>)
        requires
            mat@.nrows() == self.spec_nrows(),
        ensures
            out@.wf(),
            out@.nrows() == self.spec_ncols(),
            out@.ncols == mat@.ncols,
            forall|j: int|
                0 <= j < mat@.ncols ==> self.conj_maps(
                    mat@.column(j),
                    #[trigger] out@.column(j),
                ),
    {
        conj_matmat_by_columns(self, mat)
    }
}

/// Where the products of `op` with a vector are determined by the vector,
/// its product with a table is determined by the table: two tables that
/// each hold a product of `op` with every column of `mat` are the same.
pub proof fn lemma_matmat_determined<M: MatVec>(
    op: M,
    mat: Grid<M::A>,
    out1: Grid<M::A>,
    out2: Grid<M::A>,
)
    requires
        forall|v: Seq<M::A>, a: Seq<M::A>, b: Seq<M::A>|
            #![trigger op.maps(v, a), op.maps(v, b)]
            op.maps(v, a) && op.maps(v, b) ==> a == b,
        out1.wf(),
        out2.wf(),
        out1.nrows() == out2.nrows(),
        out1.ncols == mat.ncols,
        out2.ncols == mat.ncols,
        forall|j: int| 0 <= j < mat.ncols ==> op.maps(mat.column(j), #[trigger] out1.column(j)),
        forall|j: int| 0 <= j < mat.ncols ==> op.maps(mat.column(j), #[trigger] out2.column(j)),
    ensures
        out1 == out2,
{
    assert forall|j: int| 0 <= j < out1.ncols implies #[trigger] out1.column(j) == out2.column(
        j,
    ) by {
        assert(op.maps(mat.column(j), out1.column(j)));
        assert(op.maps(mat.column(j), out2.column(j)));
    }
    out1.lemma_equal_by_columns(out2);
}

/// The same for the conjugate adjoint: where its products with a vector
/// are determined by the vector, its product with a table is determined by
/// the table.
pub proof fn lemma_conj_matmat_determined<M: ConjMatVec>(
    op: M,
    mat: Grid<M::A>,
    out1: Grid<M::A>,
    out2: Grid<M::A>,
)
    requires
        forall|v: Seq<M::A>, a: Seq<M::A>, b: Seq<M::A>|
            #![trigger op.conj_maps(v, a), op.conj_maps(v, b)]
            op.conj_maps(v, a) && op.conj_maps(v, b) ==> a == b,
        out1.wf(),
        out2.wf(),
        out1.nrows() == out2.nrows(),
        out1.ncols == mat.ncols,
        out2.ncols == mat.ncols,
        forall|j: int|
            0 <= j < mat.ncols ==> op.conj_maps(mat.column(j), #[trigger] out1.column(j)),
        forall|j: int|
            0 <= j < mat.ncols ==> op.conj_maps(mat.column(j), #[trigger] out2.column(j)),
    ensures
        out1 == out2,
{
    assert forall|j: int| 0 <= j < out1.ncols implies #[trigger] out1.column(j) == out2.column(
        j,
    ) by {
        assert(op.conj_maps(mat.column(j), out1.column(j)));
        assert(op.conj_maps(mat.column(j), out2.column(j)));
    }
    out1.lemma_equal_by_columns(out2);
}

/// Applies `op` to each column of `mat` on its own, in increasing column
/// order, and writes each result into the same column of the output.
/// Nothing is shared between the columns, so this holds of every operator.
pub fn matmat_by_columns<M: MatVec + ?Sized>(op: &M, mat: &Table<M::A>) -> (out: Table<M::A>)
    requires
        mat@.nrows() == op.spec_ncols(),
    ensures
        out@.wf(),
        out@.nrows() == op.spec_nrows(),
        out@.ncols == mat@.ncols,
        forall|j: int| 0 <= j < mat@.ncols ==> op.maps(mat@.column(j), #[trigger] out@.column(j)),
{
    proof {
        use_type_invariant(mat);
    }
    let nrows = op.nrows();
    let batch = mat.ncols();
    let mut columns: Vec<Vec<M::A>> = Vec::new();
    let mut j: usize = 0;
    while j < batch
        invariant
            mat@.wf(),
            mat@.nrows() == op.spec_ncols(),
            nrows == op.spec_nrows(),
            batch == mat@.ncols,
            j <= batch,
            columns@.len() == j,
            forall|k: int| 0 <= k < j ==> (#[trigger] columns@[k])@.len() == nrows,
            forall|k: int| 0 <= k < j ==> op.maps(mat@.column(k), (#[trigger] columns@[k])@),
        decreases batch - j,
    {
        let col = mat.column(j);
        let image = op.matvec(&col);
        columns.push(image);
        j += 1;
    }
    let ghost lines = Grid { ncols: nrows as nat, rows: rows_view(columns@) };
    assert(lines.wf());
    proof {
        lines.lemma_transpose();
    }
    Table::from_columns(nrows, columns).unwrap()
}

/// Applies the conjugate adjoint of `op` to each column of `mat` on its
/// own, in increasing column order, and writes each result into the same
/// column of the output.
pub fn conj_matmat_by_columns<M: ConjMatVec + ?Sized>(op: &M, mat: &Table<M::A>) -> (out: Table<
    M::A,
>)
    requires
        mat@.nrows() == op.spec_nrows(),
    ensures
        out@.wf(),
        out@.nrows() == op.spec_ncols(),
        out@.ncols == mat@.ncols,
        forall|j: int|
            0 <= j < mat@.ncols ==> op.conj_maps(mat@.column(j), #[trigger] out@.column(j)),
{
    proof {
        use_type_invariant(mat);
    }
    let ncols = op.ncols();
    let batch = mat.ncols();
    let mut columns: Vec<Vec<M::A>> = Vec::new();
    let mut j: usize = 0;
    while j < batch
        invariant
            mat@.wf(),
            mat@.nrows() == op.spec_nrows(),
            ncols == op.spec_ncols(),
            batch == mat@.ncols,
            j <= batch,
            columns@.len() == j,
            forall|k: int| 0 <= k < j ==> (#[trigger] columns@[k])@.len() == ncols,
            forall|k: int|
                0 <= k < j ==> op.conj_maps(mat@.column(k), (#[trigger] columns@[k])@),
        decreases batch - j,
    {
        let col = mat.column(j);
        let image = op.conj_matvec(&col);
        columns.push(image);
        j += 1;
    }
    let ghost lines = Grid { ncols: ncols as nat, rows: rows_view(columns@) };
    assert(lines.wf());
    proof {
        lines.lemma_transpose();
    }
    Table::from_columns(ncols, columns).unwrap()
}

} // verus!
