//! Verified core of the `geomanpy` bindings: the parts of the Python-facing
//! behaviour that are decided on integers, names and shapes rather than on
//! floating-point geometry.

pub mod arguments;
pub mod arrays;
pub mod classes;
pub mod euler;
pub mod hashing;
pub mod indexing;
pub mod mesh;
pub mod shapes;
