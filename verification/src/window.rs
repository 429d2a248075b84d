//! The window configuration a host application asks for.

use vstd::prelude::*;

verus! {

/// The window settings of an application.
#[derive(Clone, Copy, Debug, PartialEq, Eq)]
pub struct Settings {
    /// The initial position of the window, if one is requested.
    pub position: Option<(u32, u32)>,
    /// The initial size of the window.
    pub size: (u32, u32),
    /// Whether the window should be resizable or not.
    pub resizable: bool,
    /// Whether the window should have a border, a title bar and the other
    /// usual decorations.
    pub decorations: bool,
}

impl Default for Settings {
    /// A window without a requested position, 1024 by 768, resizable and
    /// decorated.
    fn default() -> (s: Settings)
        ensures
            s == (Settings {
                position: None::<(u32, u32)>,
                size: (1024u32, 768u32),
                resizable: true,
                decorations: true,
            }),
    {
        Settings { position: None, size: (1024, 768), resizable: true, decorations: true }
    }
}

} // verus!
