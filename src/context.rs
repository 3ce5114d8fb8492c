//! The settings a window and its graphics context are made from.
use vstd::prelude::*;

use crate::window::{default_hints, InitHints};

verus! {

/// Title given to a window when none is set.
pub const DEFAULT_TITLE: &'static str = "ckrl";

/// Width of a window when none is set.
pub const DEFAULT_WIDTH: u32 = 800;

/// Height of a window when none is set.
pub const DEFAULT_HEIGHT: u32 = 600;

/// Collects the settings of a window and its context.
#[derive(Debug)]
pub struct ContextBuilder {
    pub window_title: String,
    pub window_width: u32,
    pub window_height: u32,
    pub platform_hints: InitHints,
}

impl ContextBuilder {
    /// The default settings.
    pub fn new() -> (r: Self)
        ensures
            r.window_title@ == DEFAULT_TITLE@,
            r.window_width == DEFAULT_WIDTH,
            r.window_height == DEFAULT_HEIGHT,
            r.platform_hints == default_hints(),
    {
        Self::default()
    }

    /// Sets the window's title.
    pub fn with_title(&mut self, title: &str) -> (r: &mut Self)
        ensures
            r.window_title@ == title@,
            r.window_width == old(self).window_width,
            r.window_height == old(self).window_height,
            r.platform_hints == old(self).platform_hints,
            *final(self) == *final(r),
    {
        self.window_title = title.to_owned();
        self
    }

    /// Sets the window's size.
    pub fn with_size(&mut self, window_width: u32, window_height: u32) -> (r: &mut Self)
        ensures
            r.window_title == old(self).window_title,
            r.window_width == window_width,
            r.window_height == window_height,
            r.platform_hints == old(self).platform_hints,
            *final(self) == *final(r),
    {
        self.window_width = window_width;
        self.window_height = window_height;
        self
    }

    /// Sets the preferences for the platform.
    pub fn with_hints(&mut self, platform_hints: InitHints) -> (r: &mut Self)
        ensures
            r.window_title == old(self).window_title,
            r.window_width == old(self).window_width,
            r.window_height == old(self).window_height,
            r.platform_hints == platform_hints,
            *final(self) == *final(r),
    {
        self.platform_hints = platform_hints;
        self
    }
}

impl Default for ContextBuilder {
    fn default() -> (r: Self)
        ensures
            r.window_title@ == DEFAULT_TITLE@,
            r.window_width == DEFAULT_WIDTH,
            r.window_height == DEFAULT_HEIGHT,
            r.platform_hints == default_hints(),
    {
        Self {
            window_title: DEFAULT_TITLE.to_owned(),
            window_width: DEFAULT_WIDTH,
            window_height: DEFAULT_HEIGHT,
            platform_hints: InitHints::default(),
        }
    }
}

} // verus!
