//! Discrete core of a trochoidal-wave water surface: the lattice that carries
//! the surface, the grouping of its vertices for batch evaluation, the order of
//! work within a deformation tick, and the submersion bookkeeping of floating
//! bodies.

pub mod batch;
pub mod buoyancy;
pub mod deform;
pub mod grid;
pub mod hull;
pub mod mesh;
