//! A point in the Cartesian plane: a pair of coordinates with field-wise
//! addition, subtraction and scaling, and conversions to and from a 2-vector,
//! a pair and a size.
//!
//! The coordinates are of a scalar type `S` that the caller chooses. The
//! conversions move coordinates and do nothing else. The arithmetic applies the
//! scalar's own `+`, `-` and `*` to each coordinate, and its contracts are
//! stated over what those operators are specified to give: exactly, for a
//! scalar whose operators have a specification, as the machine integers have;
//! and as a relation between operands and result for any other scalar, a
//! floating-point one among them.
//!
//! No operation changes its operands, and none can fail where the scalar's
//! operator can be applied.

pub mod addition;
pub mod laws;
pub mod point;
pub mod scaling;
pub mod size;
pub mod subtraction;

pub use point::Point;
pub use size::Size;
