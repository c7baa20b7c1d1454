//! What a caller asks of a context (format requirements, GL attributes) and
//! what the platform settled on (API flavour, pixel format).
use vstd::prelude::*;

verus! {

/// The flavour of GL a context speaks.
#[derive(Clone, Copy, Debug, PartialEq, Eq, Structural, Hash)]
pub enum Api {
    OpenGl,
    OpenGlEs,
    WebGl,
}

/// Which GL version to ask for.
#[derive(Clone, Copy, Debug, PartialEq, Eq, Hash)]
pub enum GlRequest {
    Latest,
    Specific(Api, (u8, u8)),
    GlThenGles { opengl_version: (u8, u8), opengles_version: (u8, u8) },
}

#[derive(Clone, Copy, Debug, PartialEq, Eq, Hash)]
pub enum GlProfile {
    Compatibility,
    Core,
}

#[derive(Clone, Copy, Debug, PartialEq, Eq, Hash)]
pub enum Robustness {
    NotRobust,
    NoError,
    RobustNoResetNotification,
    TryRobustNoResetNotification,
    RobustLoseContextOnReset,
    TryRobustLoseContextOnReset,
}

/// What happens to pending commands when a context stops being current.
#[derive(Clone, Copy, Debug, PartialEq, Eq, Hash)]
pub enum ReleaseBehavior {
    NoFlush,
    Flush,
}

/// Attributes of the context to create. `S` is how another context to share
/// GL objects with is referred to.
#[derive(Clone, Copy, Debug, PartialEq, Eq)]
pub struct GlAttributes<S> {
    pub sharing: Option<S>,
    pub version: GlRequest,
    pub profile: Option<GlProfile>,
    pub debug: bool,
    pub robustness: Robustness,
    pub vsync: bool,
}

/// Constraints on the pixel format to negotiate; `None` leaves a field free.
#[derive(Clone, Copy, Debug, PartialEq, Eq)]
pub struct PixelFormatRequirements {
    pub hardware_accelerated: Option<bool>,
    pub color_bits: Option<u8>,
    pub float_color_buffer: bool,
    pub alpha_bits: Option<u8>,
    pub depth_bits: Option<u8>,
    pub stencil_bits: Option<u8>,
    pub double_buffer: Option<bool>,
    pub multisampling: Option<u16>,
    pub stereoscopy: bool,
    pub srgb: bool,
    pub release_behavior: ReleaseBehavior,
}

impl Default for PixelFormatRequirements {
    fn default() -> (r: PixelFormatRequirements)
        ensures
            r.hardware_accelerated == Some(true),
            r.color_bits == Some(24u8),
            !r.float_color_buffer,
            r.alpha_bits == Some(8u8),
            r.depth_bits == Some(24u8),
            r.stencil_bits == Some(8u8),
            r.double_buffer is None,
            r.multisampling is None,
            !r.stereoscopy,
            !r.srgb,
            r.release_behavior == ReleaseBehavior::Flush,
    {
        PixelFormatRequirements {
            hardware_accelerated: Some(true),
            color_bits: Some(24),
            float_color_buffer: false,
            alpha_bits: Some(8),
            depth_bits: Some(24),
            stencil_bits: Some(8),
            double_buffer: None,
            multisampling: None,
            stereoscopy: false,
            srgb: false,
            release_behavior: ReleaseBehavior::Flush,
        }
    }
}

/// The configuration a context was negotiated with.
#[derive(Clone, Copy, Debug, PartialEq, Eq)]
pub struct PixelFormat {
    pub hardware_accelerated: bool,
    pub color_bits: u8,
    pub alpha_bits: u8,
    pub depth_bits: u8,
    pub stencil_bits: u8,
    pub stereoscopy: bool,
    pub double_buffer: bool,
    pub multisampling: Option<u16>,
    pub srgb: bool,
}

} // verus!
