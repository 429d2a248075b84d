//! The configuration of an application.

use vstd::prelude::*;
use crate::shell;
use crate::window;

verus! {

/// The settings of an application.
#[derive(Debug, Clone, PartialEq, Eq)]
pub struct Settings {
    /// The window settings.
    pub window: window::Settings,
    /// The bytes of the font that will be used by default.
    ///
    /// If none is provided, a default system font is chosen.
    pub default_font: Option<Vec<u8>>,
}

impl Default for Settings {
    /// The default window settings and no default font.
    fn default() -> (s: Settings)
        ensures
            s.window == (window::Settings {
                position: None::<(u32, u32)>,
                size: (1024u32, 768u32),
                resizable: true,
                decorations: true,
            }),
            s.default_font is None,
    {
        Settings { window: window::Settings::default(), default_font: None }
    }
}

impl From<Settings> for shell::Settings {
    /// Hands the window settings on to the windowing shell; the default
    /// font is consumed elsewhere, and no platform-specific settings are
    /// added.
    fn from(settings: Settings) -> (r: shell::Settings) {
        shell::Settings {
            window: shell::Window {
                position: settings.window.position,
                size: settings.window.size,
                resizable: settings.window.resizable,
                decorations: settings.window.decorations,
                platform_specific: Default::default(),
            },
        }
    }
}

impl vstd::std_specs::convert::FromSpecImpl<Settings> for shell::Settings {
    open spec fn obeys_from_spec() -> bool {
        true
    }

    open spec fn from_spec(settings: Settings) -> shell::Settings {
        shell::Settings {
            window: shell::Window {
                position: settings.window.position,
                size: settings.window.size,
                resizable: settings.window.resizable,
                decorations: settings.window.decorations,
                platform_specific: shell::PlatformSpecific {  },
            },
        }
    }
}

} // verus!
