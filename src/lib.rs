use vstd::prelude::*;

/// The frame loop: the order of the steps of each frame, and frame timing.
pub mod application;
/// Input polled once per frame: keys down, cursor movement and scroll.
pub mod input_manager;
/// Building a shader program one graphics call at a time.
pub mod program;
/// The steps that set up the window and its graphics context.
pub mod renderer_context;
/// From what the image decoder reported to the calls that make a texture.
pub mod texture;
/// Uniform locations remembered per program and name.
pub mod uniforms;

verus! {

} // verus!
