//! Surface lifecycle and render-pipeline policy for a small 2D renderer.
//!
//! The library decides; the GPU driver acts. Every operation here returns a
//! plain description (a surface configuration, a pipeline description, the
//! commands of a render pass) that the caller hands to the graphics API.
pub mod axis;
pub mod pass;
pub mod pipeline;
pub mod state;
pub mod texture;
pub mod vertex;
