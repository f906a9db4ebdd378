//! Frame pacing, image-layout tracking, surface configuration and sizing
//! rules for a renderer that draws each frame with a compute program into an
//! off-screen target and copies that target onto a rotating set of
//! presentable images.
//!
//! The GPU work itself is performed by the embedding application: this
//! library decides what is recorded, in which order, with which image
//! layouts and sizes, and when the presentable surface must be rebuilt.
pub mod extent;
pub mod device;
pub mod frame_loop;
pub mod layout;
pub mod resources;
pub mod schedule;
pub mod surface;
pub mod trace;
pub mod vulkan;

use vstd::prelude::*;

verus! {

} // verus!
