//! The decisions of a GPU Game of Life: the seed board that the simulation starts
//! from, and the controller that turns window events into drawing, painting, camera
//! and surface actions while it keeps track of the pause, the mouse buttons, the
//! surface size and the roles of the two board textures.

use vstd::prelude::*;

pub mod controller;
pub mod laws;
pub mod seed;

verus! {

} // verus!
