//! The configuration handed to the windowing shell that hosts an
//! application.

use vstd::prelude::*;

verus! {

/// Platform-specific window settings. No platform handled here carries
/// any, so the record is empty.
#[derive(Clone, Copy, Debug, PartialEq, Eq, Structural)]
pub struct PlatformSpecific {
}

impl Default for PlatformSpecific {
    /// The empty record.
    fn default() -> (s: PlatformSpecific)
        ensures
            s == (PlatformSpecific {  }),
    {
        PlatformSpecific {  }
    }
}

/// The window settings of an application, as the windowing shell takes
/// them.
#[derive(Clone, Copy, Debug, PartialEq, Eq)]
pub struct Window {
    /// The position of the window.
    pub position: Option<(u32, u32)>,
    /// The size of the window.
    pub size: (u32, u32),
    /// Whether the window should be resizable or not.
    pub resizable: bool,
    /// Whether the window should have a border, a title bar, etc.
    pub decorations: bool,
    /// Platform specific settings.
    pub platform_specific: PlatformSpecific,
}

impl Default for Window {
    /// A window without a requested position, 1024 by 768, resizable and
    /// decorated, with no platform-specific settings.
    fn default() -> (w: Window)
        ensures
            w == (Window {
                position: None::<(u32, u32)>,
                size: (1024u32, 768u32),
                resizable: true,
                decorations: true,
                platform_specific: PlatformSpecific {  },
            }),
    {
        Window {
            position: None,
            size: (1024, 768),
            resizable: true,
            decorations: true,
            platform_specific: PlatformSpecific {  },
        }
    }
}

/// The settings of an application, as the windowing shell takes them.
#[derive(Clone, Copy, Debug, PartialEq, Eq)]
pub struct Settings {
    /// The window settings.
    pub window: Window,
}

impl Default for Settings {
    /// The default window settings.
    fn default() -> (s: Settings)
        ensures
            s.window == (Window {
                position: None::<(u32, u32)>,
                size: (1024u32, 768u32),
                resizable: true,
                decorations: true,
                platform_specific: PlatformSpecific {  },
            }),
    {
        Settings { window: Window::default() }
    }
}

} // verus!
