//! Dense two-dimensional tables: the storage behind point coordinates and
//! dense operators.

use vstd::prelude::*;

verus! {

/// The mathematical model of a table: the number of columns and the rows
/// from top to bottom. The column count is kept apart from the rows, so a
/// table without rows still has a width.
#[verifier::ext_equal]
pub struct Grid<A> {
    pub ncols: nat,
    pub rows: Seq<Seq<A>>,
}

impl<A> Grid<A> {
    /// Every row has `ncols` entries.
    pub open spec fn wf(self) -> bool {
        forall|i: int| 0 <= i < self.rows.len() ==> (#[trigger] self.rows[i]).len() == self.ncols
    }

    /// The number of rows.
    pub open spec fn nrows(self) -> nat {
        self.rows.len()
    }

    /// The entry in row `i` and column `j`.
    pub open spec fn at(self, i: int, j: int) -> A
        recommends
            0 <= i < self.nrows(),
            0 <= j < self.ncols,
    {
        self.rows[i][j]
    }

    /// Column `j`, from top to bottom.
    pub open spec fn column(self, j: int) -> Seq<A>
        recommends
            0 <= j < self.ncols,
    {
        Seq::new(self.rows.len(), |i: int| self.rows[i][j])
    }

    /// The table mirrored at its diagonal: its rows are the columns of
    /// `self`.
    pub open spec fn transpose(self) -> Grid<A> {
        Grid { ncols: self.rows.len(), rows: Seq::new(self.ncols, |j: int| self.column(j)) }
    }

    /// Two tables of one shape with the same columns are the same table.
    pub proof fn lemma_equal_by_columns(self, other: Grid<A>)
        requires
            self.wf(),
            other.wf(),
            self.nrows() == other.nrows(),
            self.ncols == other.ncols,
            forall|j: int| 0 <= j < self.ncols ==> #[trigger] self.column(j) == other.column(j),
        ensures
            self == other,
    {
        assert forall|i: int| 0 <= i < self.nrows() implies #[trigger] self.rows[i]
            == other.rows[i] by {
            assert forall|j: int| 0 <= j < self.ncols implies self.rows[i][j]
                == other.rows[i][j] by {
                assert(self.column(j)[i] == other.column(j)[i]);
            }
            assert(self.rows[i] =~= other.rows[i]);
        }
        assert(self.rows =~= other.rows);
    }

    /// Transposing keeps a table well formed, swaps rows with columns, and
    /// twice over gives the table back.
    pub proof fn lemma_transpose(self)
        requires
            self.wf(),
        ensures
            self.transpose().wf(),
            self.transpose().nrows() == self.ncols,
            self.transpose().ncols == self.nrows(),
            forall|j: int|
                0 <= j < self.ncols ==> #[trigger] self.transpose().rows[j] == self.column(j),
            forall|i: int|
                0 <= i < self.nrows() ==> #[trigger] self.transpose().column(i) == self.rows[i],
            self.transpose().transpose() == self,
    {
        let t = self.transpose();
        assert forall|i: int| 0 <= i < self.nrows() implies #[trigger] t.column(i)
            == self.rows[i] by {
            assert(t.column(i) =~= self.rows[i]);
        }
        assert(t.transpose().rows =~= self.rows);
    }
}

/// A dense table of `nrows` by `ncols` entries, stored row by row. Either
/// count may be zero.
#[derive(Debug, PartialEq)]
pub struct Table<A> {
    ncols: usize,
    rows: Vec<Vec<A>>,
}

impl<A> View for Table<A> {
    type V = Grid<A>;

    closed spec fn view(&self) -> Grid<A> {
        Grid { ncols: self.ncols as nat, rows: Seq::new(self.rows@.len(), |i: int| self.rows@[i]@) }
    }
}

/// The views of the vectors of `rows`, in order.
pub open spec fn rows_view<A>(rows: Seq<Vec<A>>) -> Seq<Seq<A>> {
    Seq::new(rows.len(), |i: int| rows[i]@)
}

impl<A> Table<A> {
    /// Every row of a table has as many entries as the table has columns.
    #[verifier::type_invariant]
    pub open spec fn inv(&self) -> bool {
        self@.wf()
    }

    /// Builds the table with the given rows, each of which must hold `ncols`
    /// entries; `None` if one of them does not.
    pub fn from_rows(ncols: usize, rows: Vec<Vec<A>>) -> (out: Option<Table<A>>)
        ensures
            out is Some <==> (Grid { ncols: ncols as nat, rows: rows_view(rows@) }).wf(),
            out matches Some(t) ==> t@ == (Grid { ncols: ncols as nat, rows: rows_view(rows@) }),
    {
        let ghost g = Grid { ncols: ncols as nat, rows: rows_view(rows@) };
        let mut i: usize = 0;
        while i < rows.len()
            invariant
                i <= rows.len(),
                g == (Grid { ncols: ncols as nat, rows: rows_view(rows@) }),
                forall|k: int| 0 <= k < i ==> (#[trigger] g.rows[k]).len() == ncols,
            decreases rows.len() - i,
        {
            if rows[i].len() != ncols {
                assert(g.rows[i as int].len() != ncols);
                return None;
            }
            i += 1;
        }
        let t = Table { ncols, rows };
        assert(t@ =~~= g);
        Some(t)
    }

    /// The number of rows.
    pub fn nrows(&self) -> (n: usize)
        ensures
            n == self@.nrows(),
    {
        self.rows.len()
    }

    /// The number of columns.
    pub fn ncols(&self) -> (n: usize)
        ensures
            n == self@.ncols,
    {
        self.ncols
    }

    /// Row `i`.
    pub fn row(&self, i: usize) -> (out: &Vec<A>)
        requires
            i < self@.nrows(),
        ensures
            out@ == self@.rows[i as int],
    {
        &self.rows[i]
    }

    /// Gives the rows back, from top to bottom.
    pub fn into_rows(self) -> (out: Vec<Vec<A>>)
        ensures
            rows_view(out@) == self@.rows,
    {
        assert(rows_view(self.rows@) =~= self@.rows);
        self.rows
    }
}

impl<A: Copy> Clone for Table<A> {
    /// A table with the same entries.
    fn clone(&self) -> (out: Self)
        ensures
            out@ == self@,
    {
        let mut rows: Vec<Vec<A>> = Vec::new();
        let mut i: usize = 0;
        while i < self.rows.len()
            invariant
                i <= self.rows@.len(),
                rows@.len() == i,
                forall|k: int| 0 <= k < i ==> (#[trigger] rows@[k])@ == self.rows@[k]@,
            decreases self.rows.len() - i,
        {
            let row = copy_of(&self.rows[i]);
            rows.push(row);
            i += 1;
        }
        proof {
            use_type_invariant(self);
            assert forall|k: int| 0 <= k < rows@.len() implies (#[trigger] rows@[k])@.len()
                == self.ncols by {
                assert(self@.rows[k].len() == self@.ncols);
            }
        }
        let out = Table { ncols: self.ncols, rows };
        assert(out@ =~~= self@);
        out
    }
}

/// A vector with the same entries as `v`.
fn copy_of<A: Copy>(v: &Vec<A>) -> (out: Vec<A>)
    ensures
        out@ == v@,
{
    let mut out: Vec<A> = Vec::new();
    let mut i: usize = 0;
    while i < v.len()
        invariant
            i <= v@.len(),
            out@ == v@.take(i as int),
        decreases v.len() - i,
    {
        out.push(v[i]);
        assert(out@ =~= v@.take(i + 1));
        i += 1;
    }
    assert(v@.take(v@.len() as int) =~= v@);
    out
}

impl<A: Copy> Table<A> {
    /// The entry in row `i` and column `j`, if the table has one there.
    pub fn get(&self, i: usize, j: usize) -> (out: Option<A>)
        ensures
            out == if i < self@.nrows() && j < self@.ncols {
                Some(self@.at(i as int, j as int))
            } else {
                None
            },
    {
        proof {
            use_type_invariant(self);
        }
        if i < self.rows.len() && j < self.ncols {
            assert(self@.rows[i as int].len() == self@.ncols);
            Some(self.rows[i][j])
        } else {
            None
        }
    }

    /// A copy of column `j`, from top to bottom.
    pub fn column(&self, j: usize) -> (out: Vec<A>)
        requires
            j < self@.ncols,
        ensures
            out@ == self@.column(j as int),
    {
        proof {
            use_type_invariant(self);
        }
        let mut out: Vec<A> = Vec::new();
        let mut i: usize = 0;
        while i < self.rows.len()
            invariant
                self@.wf(),
                j < self@.ncols,
                i <= self.rows@.len(),
                out@.len() == i,
                forall|k: int| 0 <= k < i ==> out@[k] == self@.rows[k][j as int],
            decreases self.rows.len() - i,
        {
            assert(self@.rows[i as int].len() == self@.ncols);
            out.push(self.rows[i][j]);
            i += 1;
        }
        assert(out@ =~= self@.column(j as int));
        out
    }

    /// Builds the table with the given columns, each of which must hold
    /// `nrows` entries; `None` if one of them does not.
    pub fn from_columns(nrows: usize, columns: Vec<Vec<A>>) -> (out: Option<Table<A>>)
        ensures
            out is Some <==> (Grid { ncols: nrows as nat, rows: rows_view(columns@) }).wf(),
            out matches Some(t) ==> t@ == (Grid {
                ncols: nrows as nat,
                rows: rows_view(columns@),
            }).transpose(),
    {
        match Table::from_rows(nrows, columns) {
            Some(lines) => Some(lines.transpose()),
            None => None,
        }
    }

    /// The transposed table: its rows are the columns of `self`.
    pub fn transpose(&self) -> (out: Table<A>)
        ensures
            out@ == self@.transpose(),
    {
        proof {
            use_type_invariant(self);
            self@.lemma_transpose();
        }
        let mut rows: Vec<Vec<A>> = Vec::new();
        let mut j: usize = 0;
        while j < self.ncols
            invariant
                j <= self.ncols,
                self.ncols == self@.ncols,
                rows@.len() == j,
                forall|k: int| 0 <= k < j ==> (#[trigger] rows@[k])@ == self@.column(k),
            decreases self.ncols - j,
        {
            let col = self.column(j);
            rows.push(col);
            j += 1;
        }
        let out = Table { ncols: self.rows.len(), rows };
        assert(out@ =~~= self@.transpose());
        out
    }
}

} // verus!
