//! Dense operators: every table of scalars is a linear operator, with the
//! products of a matrix.

use crate::linalg::conj_table;
use crate::linalg::conj_vec;
use crate::linalg::is_conj_mat_vec;
use crate::linalg::is_mat_vec;
use crate::linalg::lemma_conj_grid_column;
use crate::linalg::lemma_conj_mat_vec_determined;
use crate::linalg::lemma_mat_mat_column;
use crate::linalg::lemma_mat_vec_determined;
use crate::linalg::lemma_real_conj_mat_vec;
use crate::linalg::mat_mat;
use crate::linalg::mat_vec;
use crate::operator::ConjMatMat;
use crate::operator::ConjMatVec;
use crate::operator::MatMat;
use crate::operator::MatVec;
use crate::table::Table;
use crate::types::conj_is_identity;
use crate::types::is_deterministic;
use crate::types::Scalar;
use vstd::prelude::*;

verus! {

impl<A: Scalar> MatVec for Table<A> {
    type A = A;

    open spec fn spec_nrows(&self) -> nat {
        self@.nrows()
    }

    open spec fn spec_ncols(&self) -> nat {
        self@.ncols
    }

    /// The matrix-vector product.
    open spec fn maps(&self, vec: Seq<A>, out: Seq<A>) -> bool {
        is_mat_vec(self@, vec, out)
    }

    fn nrows(&self) -> (n: usize) {
        Table::nrows(self)
    }

    fn ncols(&self) -> (n: usize) {
        Table::ncols(self)
    }

    fn matvec(&self, vec: &Vec<A>) -> (out: Vec<A>) {
        mat_vec(self, vec)
    }
}

impl<A: Scalar> ConjMatVec for Table<A> {
    /// The product with the conjugate transpose, by way of the conjugates
    /// of the argument and of the result.
    open spec fn conj_maps(&self, vec: Seq<A>, out: Seq<A>) -> bool {
        is_conj_mat_vec(self@, vec, out)
    }

    fn conj_matvec(&self, vec: &Vec<A>) -> (out: Vec<A>) {
        proof {
            use_type_invariant(self);
            self@.lemma_transpose();
        }
        let conjugated = conj_vec(vec);
        let product = mat_vec(&self.transpose(), &conjugated);
        let out = conj_vec(&product);
        assert(is_mat_vec(self@.transpose(), conjugated@, product@));
        out
    }
}

impl<A: Scalar> MatMat for Table<A> {
    /// The matrix-matrix product, in place of the derivation by columns.
    fn matmat(&self, mat: &Table<A>) -> (out: Table<A>) {
        let out = mat_mat(self, mat);
        proof {
            assert forall|j: int| 0 <= j < mat@.ncols implies self.maps(
                mat@.column(j),
                #[trigger] out@.column(j),
            ) by {
                lemma_mat_mat_column(self@, mat@, out@, j);
            }
        }
        out
    }
}

impl<A: Scalar> ConjMatMat for Table<A> {
    /// The matrix-matrix product with the conjugate transpose, in place of
    /// the derivation by columns.
    fn conj_matmat(&self, mat: &Table<A>) -> (out: Table<A>) {
        proof {
            use_type_invariant(self);
            use_type_invariant(mat);
            self@.lemma_transpose();
        }
        let conjugated = conj_table(mat);
        let product = mat_mat(&self.transpose(), &conjugated);
        let out = conj_table(&product);
        proof {
            use_type_invariant(&conjugated);
            use_type_invariant(&out);
            assert forall|j: int| 0 <= j < mat@.ncols implies self.conj_maps(
                mat@.column(j),
                #[trigger] out@.column(j),
            ) by {
                lemma_conj_grid_column(mat@, conjugated@, j);
                lemma_mat_mat_column(self@.transpose(), conjugated@, product@, j);
                lemma_conj_grid_column(product@, out@, j);
                assert(is_mat_vec(self@.transpose(), conjugated@.column(j), product@.column(j)));
            }
        }
        out
    }
}

/// Where the operations of the scalar type have one result each, a dense
/// operator has one product with each vector, and one with the conjugate
/// adjoint.
pub proof fn lemma_dense_products_determined<A: Scalar>(op: Table<A>)
    requires
        is_deterministic::<A>(),
    ensures
        forall|v: Seq<A>, a: Seq<A>, b: Seq<A>|
            #![trigger op.maps(v, a), op.maps(v, b)]
            op.maps(v, a) && op.maps(v, b) ==> a == b,
        forall|v: Seq<A>, a: Seq<A>, b: Seq<A>|
            #![trigger op.conj_maps(v, a), op.conj_maps(v, b)]
            op.conj_maps(v, a) && op.conj_maps(v, b) ==> a == b,
{
    assert forall|v: Seq<A>, a: Seq<A>, b: Seq<A>|
        #![trigger op.maps(v, a), op.maps(v, b)]
        op.maps(v, a) && op.maps(v, b) implies a == b by {
        lemma_mat_vec_determined(op@, v, a, b);
    }
    assert forall|v: Seq<A>, a: Seq<A>, b: Seq<A>|
        #![trigger op.conj_maps(v, a), op.conj_maps(v, b)]
        op.conj_maps(v, a) && op.conj_maps(v, b) implies a == b by {
        lemma_conj_mat_vec_determined(op@, v, a, b);
    }
}

/// For a scalar type without an imaginary part, what the conjugate adjoint
/// of a dense operator makes of a vector is what the transposed operator
/// makes of it.
pub proof fn lemma_real_conj_matvec_is_transposed_matvec<A: Scalar>(
    op: Table<A>,
    transposed: Table<A>,
    vec: Seq<A>,
    out: Seq<A>,
)
    requires
        conj_is_identity::<A>(),
        transposed@ == op@.transpose(),
        op.conj_maps(vec, out),
    ensures
        transposed.maps(vec, out),
{
    lemma_real_conj_mat_vec(op@, vec, out);
}

} // verus!
