use vstd::prelude::*;

verus! {

/// The state of the host's drawing pipeline. Each switch is 0 for off and
/// anything else for on.
#[derive(Clone, Copy, Debug, PartialEq, Eq, Structural)]
pub struct GraphicsState {
    /// Fog.
    pub enable_fog: i32,
    /// The number of texture units; with none, nothing is textured.
    pub number_tex_units: i32,
    /// Lighting.
    pub enable_lighting: i32,
    /// The alpha test of each pixel.
    pub enable_alpha_testing: i32,
    /// The alpha blending of each pixel.
    pub enable_alpha_blending: i32,
    /// The depth test of each pixel.
    pub enable_depth_testing: i32,
    /// The writing of depths to the depth buffer.
    pub enable_depth_writing: i32,
}

impl GraphicsState {
    /// The state for drawing the user interface: everything is off.
    pub fn ui() -> (r: Self)
        ensures
            r == (GraphicsState {
                enable_fog: 0,
                number_tex_units: 0,
                enable_lighting: 0,
                enable_alpha_testing: 0,
                enable_alpha_blending: 0,
                enable_depth_testing: 0,
                enable_depth_writing: 0,
            }),
    {
        Self {
            enable_fog: 0,
            number_tex_units: 0,
            enable_lighting: 0,
            enable_alpha_testing: 0,
            enable_alpha_blending: 0,
            enable_depth_testing: 0,
            enable_depth_writing: 0,
        }
    }
}

} // verus!
