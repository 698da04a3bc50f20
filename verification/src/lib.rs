//! Exact arithmetic on bicomplex-dual numbers `a + b·i + c·ε + d·iε`,
//! where `i² = -1`, `ε² = 0` and `i·ε = ε·i`, with integer components.
//!
//! - `model`: the numbers as quadruples of mathematical integers, and the
//!   operations on them that the contracts speak of;
//! - `number`: the executable type `BiCompNum` and its arithmetic;
//! - `render`: the text form `a + bi + cε + diε`;
//! - `laws`: the ring laws and the other facts that hold of every number.

use vstd::prelude::*;

pub mod model;
pub mod number;
pub mod laws;
pub mod render;

pub use number::BiCompNum;
