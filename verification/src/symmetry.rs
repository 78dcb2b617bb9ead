//! The symmetry engine: canonical point keys, ordered orbits, the space-group
//! tables and the resolution of group identifiers.

pub mod group;
pub mod identifier;
pub mod key;
pub mod operations;
pub mod orbit;
pub mod point;
