//! Window geometry, resolution tables and listing rules for a small
//! window-centering tool.

use vstd::prelude::*;

pub mod geometry;
pub mod resolution;
pub mod text;
pub mod window;

verus! {

} // verus!
