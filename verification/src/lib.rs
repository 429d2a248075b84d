//! The layout and event core of a retained-mode UI toolkit.
//!
//! A tree of widgets negotiates its size under parent-imposed constraints
//! ([`Limits`]), translates raw input events into application messages while
//! mutating private per-widget state, and exposes a structural fingerprint
//! ([`Hasher`]) used to decide whether a previously computed layout can be
//! reused.
//!
//! Every widget offers the same capability set: an intrinsic width and height
//! preference, a `layout` function producing a [`Node`], an `on_event`
//! handler, a `draw` function deferring to a renderer, and a `hash_layout`
//! fingerprint. The set of widgets is a closed union, [`Element`]; rendering
//! backends plug in through the renderer trait of each widget kind.

use vstd::prelude::*;

pub mod element;
pub mod geometry;
pub mod hasher;
pub mod hover_area;
pub mod input;
pub mod length;
pub mod limits;
pub mod node;
pub mod settings;
pub mod shell;
pub mod window;

pub use element::Element;
pub use geometry::{Point, Rectangle, Size};
pub use hasher::Hasher;
pub use hover_area::{HoverArea, State};
pub use input::{ButtonState, Event};
pub use length::Length;
pub use limits::Limits;
pub use node::{Layout, Node};
pub use settings::Settings;

verus! {

/// An optional capability to read the system clipboard.
///
/// A host that has no clipboard simply passes no capability; its absence is
/// handled as "no content", never as a failure.
pub trait Clipboard {
    /// Reads the current content of the clipboard, if there is any.
    fn content(&self) -> Option<String>;
}

} // verus!
