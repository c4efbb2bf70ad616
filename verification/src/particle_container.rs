//! A simple container that stores source particles and target particles:
//! two tables of coordinates, one point per row.

use crate::table::Grid;
use crate::table::Table;
use crate::types::RealType;
use vstd::prelude::*;

verus! {

/// Any type that provides a table of sources and a table of targets.
///
/// The two tables are independent: nothing ties the number of sources to
/// the number of targets, and either may be zero. The number of columns is
/// that of the table that was stored.
pub trait ParticleContainerAccessor {
    /// The type of the coordinates.
    type A: RealType;

    /// The stored table of sources.
    spec fn spec_sources(&self) -> Grid<Self::A>;

    /// The stored table of targets.
    spec fn spec_targets(&self) -> Grid<Self::A>;

    /// Returns a non-owning representation of the sources.
    fn sources(&self) -> (out: &Table<Self::A>)
        ensures
            out@ == self.spec_sources(),
    ;

    /// Returns a non-owning representation of the targets.
    fn targets(&self) -> (out: &Table<Self::A>)
        ensures
            out@ == self.spec_targets(),
    ;
}

/// The container of sources and targets that are owned.
pub struct ParticleContainer<T: RealType> {
    sources: Table<T>,
    targets: Table<T>,
}

/// The container of sources and targets that are not owned.
pub struct ParticleContainerView<'a, T> {
    sources: &'a Table<T>,
    targets: &'a Table<T>,
}

/// Creates a new particle container and transfers ownership of both
/// tables to it.
pub fn make_particle_container_owned<T: RealType>(sources: Table<T>, targets: Table<T>) -> (out:
    ParticleContainer<T>)
    ensures
        out.spec_sources() == sources@,
        out.spec_targets() == targets@,
{
    ParticleContainer { sources, targets }
}

/// Creates a new particle container that does not take over ownership.
pub fn make_particle_container<'a, T: RealType>(
    sources: &'a Table<T>,
    targets: &'a Table<T>,
) -> (out: ParticleContainerView<'a, T>)
    ensures
        out.spec_sources() == sources@,
        out.spec_targets() == targets@,
{
    ParticleContainerView { sources, targets }
}

impl<A: RealType> ParticleContainerAccessor for ParticleContainer<A> {
    type A = A;

    closed spec fn spec_sources(&self) -> Grid<A> {
        self.sources@
    }

    closed spec fn spec_targets(&self) -> Grid<A> {
        self.targets@
    }

    fn sources(&self) -> (out: &Table<A>) {
        &self.sources
    }

    fn targets(&self) -> (out: &Table<A>) {
        &self.targets
    }
}

impl<'a, A: RealType> ParticleContainerAccessor for ParticleContainerView<'a, A> {
    type A = A;

    closed spec fn spec_sources(&self) -> Grid<A> {
        self.sources@
    }

    closed spec fn spec_targets(&self) -> Grid<A> {
        self.targets@
    }

    fn sources(&self) -> (out: &Table<A>) {
        self.sources
    }

    fn targets(&self) -> (out: &Table<A>) {
        self.targets
    }
}

} // verus!
