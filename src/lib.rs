//! The state and the fixed geometry of a unit-circle explorer: an angle in
//! whole degrees that two keys step around the circle, and the degrees at
//! which the circle's outline is sampled.

use vstd::prelude::*;

pub mod angle;
pub mod outline;

verus! {

} // verus!
