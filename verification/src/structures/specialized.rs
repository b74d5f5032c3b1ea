//! Structures under the usual tags, for elements with infix operators, and
//! the interfaces of the sets that are built over a ring.
pub mod grouplike;
pub mod mat;
pub mod poly;
pub mod ringlike;
