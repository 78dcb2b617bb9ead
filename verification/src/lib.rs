//! Crystal-structure support: exact point keys, symmetry orbits and
//! space-group identity.
//!
//! Coordinates are carried as the bit patterns of IEEE-754 binary64 numbers.
//! The library decides which points coincide, in which order they stand,
//! which space group an identifier names and which operations belong to it;
//! arithmetic on coordinates is left to the caller.

pub mod atoms;
pub mod symmetry;
pub mod text;

pub use atoms::{AdpType, ParseAdpTypeError};
pub use symmetry::group::SpaceGroup;
pub use symmetry::identifier::{IntoSpaceGroupNumber, IntoSpaceGroupSymbol};
pub use symmetry::key::{integer_decode, point3_decode};
pub use symmetry::operations::{SpaceGroupGenerators, SpaceGroupSymmetryOperations};
pub use symmetry::orbit::Orbit;
pub use symmetry::point::{trivial_translations, Matrix4, Point3, Vector4};
