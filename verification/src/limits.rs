//! The constraint envelope a parent imposes on a child during layout.

use vstd::prelude::*;
use crate::geometry::{max_u32, min_u32, Size};
use crate::length::Length;

verus! {

/// The minimum and maximum width and height a widget may occupy.
///
/// A parent builds fresh limits for every layout call; the child narrows
/// them through the builder-style methods below and finally resolves its
/// intrinsic size against them. Every narrowing operation keeps the envelope
/// well formed: the minimum never exceeds the maximum.
#[derive(Clone, Copy, Debug, PartialEq, Eq, Structural)]
pub struct Limits {
    pub min_width: u32,
    pub max_width: u32,
    pub min_height: u32,
    pub max_height: u32,
}

impl Limits {
    /// Whether the envelope is consistent: each minimum is at most the
    /// corresponding maximum.
    pub open spec fn wf(self) -> bool {
        self.min_width <= self.max_width && self.min_height <= self.max_height
    }

    /// Creates an envelope between the sizes `min` and `max`.
    pub fn new(min: Size, max: Size) -> (r: Limits)
        requires
            min.width <= max.width,
            min.height <= max.height,
        ensures
            r == (Limits {
                min_width: min.width,
                max_width: max.width,
                min_height: min.height,
                max_height: max.height,
            }),
            r.wf(),
    {
        Limits {
            min_width: min.width,
            max_width: max.width,
            min_height: min.height,
            max_height: max.height,
        }
    }

    /// The envelope narrowed along the horizontal axis to respect `width`:
    /// a fixed amount of units pins both bounds to that amount, clamped into
    /// the current envelope; the other policies leave the envelope unchanged.
    pub open spec fn spec_width(self, width: Length) -> Limits {
        match width {
            Length::Units(units) => {
                let pinned = max_u32(self.min_width, min_u32(units, self.max_width));
                Limits { min_width: pinned, max_width: pinned, ..self }
            },
            _ => self,
        }
    }

    /// Narrows the envelope along the horizontal axis to respect `width`.
    ///
    /// The narrowed maximum never exceeds the old one, and a well-formed
    /// envelope stays well formed.
    pub fn width(self, width: Length) -> (r: Limits)
        ensures
            r == self.spec_width(width),
            self.wf() ==> r.max_width <= self.max_width,
            self.wf() ==> r.wf(),
    {
        match width {
            Length::Units(units) => {
                let capped = if units <= self.max_width {
                    units
                } else {
                    self.max_width
                };
                let pinned = if self.min_width >= capped {
                    self.min_width
                } else {
                    capped
                };
                Limits { min_width: pinned, max_width: pinned, ..self }
            },
            _ => self,
        }
    }

    /// The envelope narrowed along the vertical axis to respect `height`.
    pub open spec fn spec_height(self, height: Length) -> Limits {
        match height {
            Length::Units(units) => {
                let pinned = max_u32(self.min_height, min_u32(units, self.max_height));
                Limits { min_height: pinned, max_height: pinned, ..self }
            },
            _ => self,
        }
    }

    /// Narrows the envelope along the vertical axis to respect `height`.
    pub fn height(self, height: Length) -> (r: Limits)
        ensures
            r == self.spec_height(height),
            self.wf() ==> r.max_height <= self.max_height,
            self.wf() ==> r.wf(),
    {
        match height {
            Length::Units(units) => {
                let capped = if units <= self.max_height {
                    units
                } else {
                    self.max_height
                };
                let pinned = if self.min_height >= capped {
                    self.min_height
                } else {
                    capped
                };
                Limits { min_height: pinned, max_height: pinned, ..self }
            },
            _ => self,
        }
    }

    /// The envelope with its width floor raised to `units`, capped at the
    /// current maximum width.
    pub open spec fn spec_min_width(self, units: u32) -> Limits {
        Limits { min_width: max_u32(self.min_width, min_u32(units, self.max_width)), ..self }
    }

    /// Raises the width floor to `units`, capped at the current maximum.
    pub fn min_width(self, min_width: u32) -> (r: Limits)
        ensures
            r == self.spec_min_width(min_width),
            self.wf() ==> r.max_width <= self.max_width,
            self.wf() ==> r.wf(),
    {
        let capped = if min_width <= self.max_width {
            min_width
        } else {
            self.max_width
        };
        let raised = if self.min_width >= capped {
            self.min_width
        } else {
            capped
        };
        Limits { min_width: raised, ..self }
    }

    /// The envelope with its height floor raised to `units`, capped at the
    /// current maximum height.
    pub open spec fn spec_min_height(self, units: u32) -> Limits {
        Limits { min_height: max_u32(self.min_height, min_u32(units, self.max_height)), ..self }
    }

    /// Raises the height floor to `units`, capped at the current maximum.
    pub fn min_height(self, min_height: u32) -> (r: Limits)
        ensures
            r == self.spec_min_height(min_height),
            self.wf() ==> r.max_height <= self.max_height,
            self.wf() ==> r.wf(),
    {
        let capped = if min_height <= self.max_height {
            min_height
        } else {
            self.max_height
        };
        let raised = if self.min_height >= capped {
            self.min_height
        } else {
            capped
        };
        Limits { min_height: raised, ..self }
    }

    /// The envelope shrunk by `padding` units on every side: each bound
    /// loses `2 * padding` per axis, floored so that nothing underflows and
    /// the minimum never overtakes the maximum.
    pub open spec fn spec_pad(self, padding: u16) -> Limits {
        let shrink = (2 * (padding as u32)) as u32;
        let minw = self.min_width.saturating_sub(shrink);
        let minh = self.min_height.saturating_sub(shrink);
        Limits {
            min_width: minw,
            max_width: max_u32(self.max_width.saturating_sub(shrink), minw),
            min_height: minh,
            max_height: max_u32(self.max_height.saturating_sub(shrink), minh),
        }
    }

    /// Shrinks the envelope by `padding` units on every side.
    pub fn pad(self, padding: u16) -> (r: Limits)
        ensures
            r == self.spec_pad(padding),
            self.wf() ==> r.max_width <= self.max_width,
            self.wf() ==> r.max_height <= self.max_height,
            self.wf() ==> r.wf(),
    {
        let shrink: u32 = 2 * (padding as u32);
        let minw = self.min_width.saturating_sub(shrink);
        let minh = self.min_height.saturating_sub(shrink);
        let maxw = self.max_width.saturating_sub(shrink);
        let maxh = self.max_height.saturating_sub(shrink);
        Limits {
            min_width: minw,
            max_width: if maxw >= minw {
                maxw
            } else {
                minw
            },
            min_height: minh,
            max_height: if maxh >= minh {
                maxh
            } else {
                minh
            },
        }
    }

    /// The final size of a content whose natural size is `intrinsic`: each
    /// axis is clamped into the envelope. When the floor exceeds the natural
    /// size, the floor wins; when the natural size exceeds the ceiling, the
    /// ceiling wins.
    pub open spec fn spec_resolve(self, intrinsic: Size) -> Size {
        Size {
            width: max_u32(self.min_width, min_u32(intrinsic.width, self.max_width)),
            height: max_u32(self.min_height, min_u32(intrinsic.height, self.max_height)),
        }
    }

    /// Resolves a content's natural size against the envelope.
    pub fn resolve(&self, intrinsic: Size) -> (r: Size)
        ensures
            r == self.spec_resolve(intrinsic),
            self.wf() ==> self.min_width <= r.width <= self.max_width,
            self.wf() ==> self.min_height <= r.height <= self.max_height,
    {
        let capped_w = if intrinsic.width <= self.max_width {
            intrinsic.width
        } else {
            self.max_width
        };
        let capped_h = if intrinsic.height <= self.max_height {
            intrinsic.height
        } else {
            self.max_height
        };
        Size {
            width: if self.min_width >= capped_w {
                self.min_width
            } else {
                capped_w
            },
            height: if self.min_height >= capped_h {
                self.min_height
            } else {
                capped_h
            },
        }
    }
}

} // verus!
