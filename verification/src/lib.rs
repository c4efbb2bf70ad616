//! Basic data structures and types of a solver for kernel-based methods
//! over particle point clouds: the scalar capabilities, dense tables of
//! scalars, the particle geometry, and the linear-operator interface with
//! its derived batched products.

pub mod dense;
pub mod linalg;
pub mod operator;
pub mod particle_container;
pub mod table;
pub mod types;

pub use crate::types::EvalMode;
pub use crate::types::RealType;
pub use crate::types::Scalar;
pub use crate::types::ThreadingType;

pub use crate::table::Grid;
pub use crate::table::Table;

pub use crate::operator::ConjMatMat;
pub use crate::operator::ConjMatVec;
pub use crate::operator::MatMat;
pub use crate::operator::MatVec;

pub use crate::particle_container::make_particle_container;
pub use crate::particle_container::make_particle_container_owned;

pub use crate::particle_container::ParticleContainer;
pub use crate::particle_container::ParticleContainerAccessor;
pub use crate::particle_container::ParticleContainerView;
