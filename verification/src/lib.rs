//! Exact three-dimensional vector algebra.
//!
//! `Vec3` is a plain value type with three integer components and the usual
//! component-wise operations: sum, difference, scaling by a scalar (with the
//! scalar on either side), dot product, cross product and squared length,
//! each in a non-mutating and, for the arithmetic ones, an in-place form.
//! `Ray` pairs an origin point with a direction vector and evaluates the
//! parametric point `origin + t * dir`.
//!
//! Every operation carries a contract that pins its result down
//! component-wise against a mathematical model over unbounded integers, and
//! the algebraic laws of the operations — cancellation of addition by
//! subtraction, commutativity of the dot product, perpendicularity of the
//! cross product, indifference of scaling to operand order — are stated and
//! proved as lemmas over that model.

pub mod ray;
pub mod vector;

pub use ray::Ray;
pub use vector::Vec3;
pub use vector::scale;
