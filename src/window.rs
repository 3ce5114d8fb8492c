//! What is asked of the platform when the window and its context are made.
use vstd::prelude::*;

verus! {

/// The OpenGL version to ask for.
#[derive(Clone, Copy, Debug, PartialEq, Eq, Structural)]
pub enum GlRequest {
    /// The newest version the platform offers.
    Latest,
    /// Exactly this version.
    Specific { major: u8, minor: u8 },
}

/// The OpenGL profile to ask for.
#[derive(Clone, Copy, Debug, PartialEq, Eq, Structural)]
pub enum GlProfile {
    Core,
    Compatibility,
}

/// Preferences for the window and its context.
#[derive(Clone, Copy, Debug, PartialEq, Eq, Structural)]
pub struct InitHints {
    pub vsync: bool,
    /// Covers the first monitor the platform lists.
    pub fullscreen: bool,
    pub gl_version: GlRequest,
    pub gl_profile: GlProfile,
    pub hardware_acceleration: bool,
    /// An sRGB framebuffer.
    pub srgb: bool,
}

/// Vsync on, windowed, the latest core profile, hardware accelerated, sRGB.
pub open spec fn default_hints() -> InitHints {
    InitHints {
        vsync: true,
        fullscreen: false,
        gl_version: GlRequest::Latest,
        gl_profile: GlProfile::Core,
        hardware_acceleration: true,
        srgb: true,
    }
}

impl Default for InitHints {
    fn default() -> (r: InitHints)
        ensures
            r == default_hints(),
    {
        InitHints {
            vsync: true,
            fullscreen: false,
            gl_version: GlRequest::Latest,
            gl_profile: GlProfile::Core,
            hardware_acceleration: true,
            srgb: true,
        }
    }
}

} // verus!
