//! Constants shared with the native library.

use vstd::prelude::*;

verus! {

/// Upper bound on material maps per material in the native library.
pub const MAX_MATERIAL_MAPS: u32 = 12;

/// Upper bound on shader locations per shader in the native library.
pub const MAX_SHADER_LOCATIONS: u32 = 32;

/// Window configuration flags of the native library.
#[allow(non_camel_case_types)]
#[derive(Clone, Copy, Debug, PartialEq, Eq, Structural)]
pub enum ConfigFlags {
    /// Try enabling V-Sync on the GPU.
    FLAG_VSYNC_HINT,
    /// Run the program in fullscreen.
    FLAG_FULLSCREEN_MODE,
    /// Allow a resizable window.
    FLAG_WINDOW_RESIZABLE,
    /// Disable window decoration (frame and buttons).
    FLAG_WINDOW_UNDECORATED,
    /// Hide the window.
    FLAG_WINDOW_HIDDEN,
    /// Minimize the window (iconify).
    FLAG_WINDOW_MINIMIZED,
    /// Maximize the window (expanded to the monitor).
    FLAG_WINDOW_MAXIMIZED,
    /// Window is not focused.
    FLAG_WINDOW_UNFOCUSED,
    /// Window is always on top.
    FLAG_WINDOW_TOPMOST,
    /// Allow the window to keep running while minimized.
    FLAG_WINDOW_ALWAYS_RUN,
    /// Allow a transparent framebuffer.
    FLAG_WINDOW_TRANSPARENT,
    /// Support high-DPI displays.
    FLAG_WINDOW_HIGHDPI,
    /// Let mouse events pass through an undecorated window.
    FLAG_WINDOW_MOUSE_PASSTHROUGH,
    /// Run the program in borderless windowed mode.
    FLAG_BORDERLESS_WINDOWED_MODE,
    /// Try enabling 4x multisample anti-aliasing.
    FLAG_MSAA_4X_HINT,
    /// Try enabling interlaced video format.
    FLAG_INTERLACED_HINT,
}

impl ConfigFlags {
    /// The bit that the native library assigns to this flag.
    pub open spec fn mask(self) -> i32 {
        match self {
            ConfigFlags::FLAG_VSYNC_HINT => 0x0000_0040,
            ConfigFlags::FLAG_FULLSCREEN_MODE => 0x0000_0002,
            ConfigFlags::FLAG_WINDOW_RESIZABLE => 0x0000_0004,
            ConfigFlags::FLAG_WINDOW_UNDECORATED => 0x0000_0008,
            ConfigFlags::FLAG_WINDOW_HIDDEN => 0x0000_0080,
            ConfigFlags::FLAG_WINDOW_MINIMIZED => 0x0000_0200,
            ConfigFlags::FLAG_WINDOW_MAXIMIZED => 0x0000_0400,
            ConfigFlags::FLAG_WINDOW_UNFOCUSED => 0x0000_0800,
            ConfigFlags::FLAG_WINDOW_TOPMOST => 0x0000_1000,
            ConfigFlags::FLAG_WINDOW_ALWAYS_RUN => 0x0000_0100,
            ConfigFlags::FLAG_WINDOW_TRANSPARENT => 0x0000_0010,
            ConfigFlags::FLAG_WINDOW_HIGHDPI => 0x0000_2000,
            ConfigFlags::FLAG_WINDOW_MOUSE_PASSTHROUGH => 0x0000_4000,
            ConfigFlags::FLAG_BORDERLESS_WINDOWED_MODE => 0x0000_8000,
            ConfigFlags::FLAG_MSAA_4X_HINT => 0x0000_0020,
            ConfigFlags::FLAG_INTERLACED_HINT => 0x0001_0000,
        }
    }

    /// The flag's bit as the signed word in which window state is kept.
    pub fn bits(self) -> (bits: i32)
        ensures
            bits == self.mask(),
    {
        match self {
            ConfigFlags::FLAG_VSYNC_HINT => 0x0000_0040,
            ConfigFlags::FLAG_FULLSCREEN_MODE => 0x0000_0002,
            ConfigFlags::FLAG_WINDOW_RESIZABLE => 0x0000_0004,
            ConfigFlags::FLAG_WINDOW_UNDECORATED => 0x0000_0008,
            ConfigFlags::FLAG_WINDOW_HIDDEN => 0x0000_0080,
            ConfigFlags::FLAG_WINDOW_MINIMIZED => 0x0000_0200,
            ConfigFlags::FLAG_WINDOW_MAXIMIZED => 0x0000_0400,
            ConfigFlags::FLAG_WINDOW_UNFOCUSED => 0x0000_0800,
            ConfigFlags::FLAG_WINDOW_TOPMOST => 0x0000_1000,
            ConfigFlags::FLAG_WINDOW_ALWAYS_RUN => 0x0000_0100,
            ConfigFlags::FLAG_WINDOW_TRANSPARENT => 0x0000_0010,
            ConfigFlags::FLAG_WINDOW_HIGHDPI => 0x0000_2000,
            ConfigFlags::FLAG_WINDOW_MOUSE_PASSTHROUGH => 0x0000_4000,
            ConfigFlags::FLAG_BORDERLESS_WINDOWED_MODE => 0x0000_8000,
            ConfigFlags::FLAG_MSAA_4X_HINT => 0x0000_0020,
            ConfigFlags::FLAG_INTERLACED_HINT => 0x0001_0000,
        }
    }
}

} // verus!
