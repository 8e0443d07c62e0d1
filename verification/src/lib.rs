//! Verified core of the storyboard renderer and runtime.

pub mod gpu;
pub mod pass;
pub mod archive;
pub mod modules;
pub mod launch;
pub mod surface;
