//! Two-dimensional position and facing for entities of a real-time simulation, kept in step
//! with the host's three-dimensional transform
//!
//! - [`orientation`]: facing as a [`Rotation`](orientation::Rotation) (an angle from north)
//!   and as a [`Direction`](orientation::Direction), and the conversions between them and
//!   from vectors
//! - [`position`]: the generic [`Position`](position::Position) over a coordinate type
//! - [`discrete_coordinates`]: grid coordinate types and their rings of neighbors
//! - [`sync`]: the per-cycle reconciliation of the 2-dimensional fields with the transform

pub mod orientation;
pub mod position;
pub mod discrete_coordinates;
pub mod sync;
