//! The closed union of widgets a user interface is built from.
//!
//! Every variant offers the capability set of a widget: an intrinsic width
//! and height preference, a layout function, an event handler and a
//! structural fingerprint. Hit-testing and drawing consume the computed
//! [`Node`] tree through [`Layout`] views.

use vstd::prelude::*;
use crate::geometry::{Point, Rectangle, Size};
use crate::hasher::{spec_mix, Hasher};
use crate::hover_area::{HoverArea, Renderer};
use crate::input::Event;
use crate::length::Length;
use crate::limits::Limits;
use crate::node::{Layout, LayoutModel, Node};
use crate::Clipboard;

verus! {

/// A generic widget of a user interface.
pub enum Element<Message, R: Renderer> {
    /// An invisible leaf that occupies space according to its sizing
    /// policies; with fixed-unit policies it is a fixed-size content.
    Space { width: Length, height: Length },
    /// A hover area wrapping further content.
    Hover(Box<HoverArea<Message, R>>),
}

impl<Message, R: Renderer> Element<Message, R> {
    /// The intrinsic width preference of the widget.
    pub open spec fn spec_width(self) -> Length {
        match self {
            Element::Space { width, .. } => width,
            Element::Hover(area) => area.width,
        }
    }

    /// The intrinsic width preference, consulted by parent containers
    /// before laying the widget out.
    pub fn width(&self) -> (w: Length)
        ensures
            w == self.spec_width(),
    {
        match self {
            Element::Space { width, .. } => *width,
            Element::Hover(area) => area.width,
        }
    }

    /// The intrinsic height preference of the widget.
    pub open spec fn spec_height(self) -> Length {
        match self {
            Element::Space { height, .. } => height,
            Element::Hover(area) => area.height,
        }
    }

    /// The intrinsic height preference, consulted by parent containers
    /// before laying the widget out.
    pub fn height(&self) -> (h: Length)
        ensures
            h == self.spec_height(),
    {
        match self {
            Element::Space { height, .. } => *height,
            Element::Hover(area) => area.height,
        }
    }

    /// The layout of the widget under `limits`: a leaf narrows the
    /// envelope by its sizing policies and resolves an empty natural size
    /// against it; a hover area lays its content out and wraps it.
    pub open spec fn spec_layout(self, limits: Limits) -> LayoutModel
        decreases self,
    {
        match self {
            Element::Space { width, height } => {
                let resolved = limits.spec_width(width).spec_height(height).spec_resolve(
                    Size { width: 0, height: 0 },
                );
                LayoutModel {
                    bounds: Rectangle {
                        x: 0,
                        y: 0,
                        width: resolved.width,
                        height: resolved.height,
                    },
                    children: Seq::<LayoutModel>::empty(),
                }
            },
            Element::Hover(area) => area.spec_layout(limits),
        }
    }

    /// Computes the layout of the widget under `limits`.
    ///
    /// Layout is pure: the node is a function of the widget's
    /// configuration and the limits alone.
    pub fn layout(&self, renderer: &R, limits: &Limits) -> (node: Node)
        ensures
            node.model() == self.spec_layout(*limits),
        decreases *self,
    {
        match self {
            Element::Space { width, height } => {
                let resolved = limits.width(*width).height(*height).resolve(Size::new(0, 0));
                Node::new(resolved)
            },
            Element::Hover(area) => area.layout(renderer, limits),
        }
    }

    /// How many messages one event emits: only a hover area emits, on the
    /// rising edge of hover.
    pub open spec fn spec_emitted(self, bounds: Rectangle, cursor: Point) -> nat {
        match self {
            Element::Space { .. } => 0,
            Element::Hover(area) => area.spec_emitted(bounds, cursor),
        }
    }

    /// The hash state after folding in the widget's layout-affecting
    /// configuration: a tag for the kind, then the variant's attributes.
    pub open spec fn spec_hash_layout(self, state: u64) -> u64
        decreases self,
    {
        match self {
            Element::Space { width, height } => height.spec_hash(
                width.spec_hash(spec_mix(state, 0)),
            ),
            Element::Hover(area) => area.spec_hash_layout(state),
        }
    }

    /// Folds the widget's layout-affecting configuration into `state`.
    pub fn hash_layout(&self, state: &mut Hasher)
        ensures
            final(state).state == self.spec_hash_layout(old(state).state),
        decreases *self,
    {
        match self {
            Element::Space { width, height } => {
                state.write_u64(0);
                width.hash(state);
                height.hash(state);
            },
            Element::Hover(area) => area.hash_layout(state),
        }
    }
}

impl<Message: Clone, R: Renderer> Element<Message, R> {
    /// Routes one event to the widget: a leaf ignores it; a hover area
    /// handles it locally against its own absolute bounds.
    pub fn on_event<C: Clipboard>(
        &mut self,
        event: Event,
        layout: Layout<'_>,
        cursor_position: Point,
        messages: &mut Vec<Message>,
        renderer: &R,
        clipboard: Option<&C>,
    )
        ensures
            *old(self) is Space ==> *final(self) == *old(self),
            *old(self) matches Element::Hover(a) ==> (*final(self) matches Element::Hover(b) && *b
                == a.spec_after_event(layout.spec_bounds(), cursor_position)),
            final(messages)@.len() == old(messages)@.len() + old(self).spec_emitted(
                layout.spec_bounds(),
                cursor_position,
            ),
            final(messages)@.subrange(0, old(messages)@.len() as int) == old(messages)@,
            *old(self) matches Element::Hover(a) ==> (a.spec_emitted(
                layout.spec_bounds(),
                cursor_position,
            ) == 1 ==> vstd::pervasive::cloned::<Message>(
                a.on_hover->Some_0,
                final(messages)@.last(),
            )),
    {
        match self {
            Element::Space { .. } => {
                proof {
                    assert(messages@.subrange(0, messages@.len() as int) =~= messages@);
                }
            },
            Element::Hover(area) => {
                area.on_event(event, layout, cursor_position, messages, renderer, clipboard);
            },
        }
    }
}

/// Whether a widget's padding fits inside the envelope it owns under
/// `limits`: the two padding bands leave room under the maximum on both
/// axes. A leaf has no padding and always fits.
pub open spec fn padding_fits<Message, R: Renderer>(
    e: Element<Message, R>,
    limits: Limits,
) -> bool {
    match e {
        Element::Space { .. } => true,
        Element::Hover(area) => {
            let own = area.spec_own_limits(limits);
            &&& 2 * (area.padding as int) <= own.max_width
            &&& 2 * (area.padding as int) <= own.max_height
        },
    }
}

/// Law: the size a widget resolves under a well-formed envelope respects
/// the envelope on both axes, whenever the widget's padding leaves room
/// under the maximum.
pub proof fn lemma_layout_within_limits<Message, R: Renderer>(
    e: Element<Message, R>,
    limits: Limits,
)
    requires
        limits.wf(),
        padding_fits(e, limits),
    ensures
        limits.min_width <= e.spec_layout(limits).size().width <= limits.max_width,
        limits.min_height <= e.spec_layout(limits).size().height <= limits.max_height,
{
}

/// Whether two widgets carry the same layout-affecting configuration: the
/// same kind, sizing policies, minimums and padding, with contents that
/// agree in the same way. Messages, local state and style are left aside:
/// they do not affect layout.
pub open spec fn same_layout_config<Message, R: Renderer>(
    a: Element<Message, R>,
    b: Element<Message, R>,
) -> bool
    decreases a,
{
    match (a, b) {
        (Element::Space { width: aw, height: ah }, Element::Space { width: bw, height: bh }) => aw
            == bw && ah == bh,
        (Element::Hover(x), Element::Hover(y)) => {
            &&& x.width == y.width
            &&& x.height == y.height
            &&& x.min_width == y.min_width
            &&& x.min_height == y.min_height
            &&& x.padding == y.padding
            &&& same_layout_config(x.content, y.content)
        },
        _ => false,
    }
}

/// Law: structural-hash stability. Two widget trees with the same
/// layout-affecting configuration fold any hash state to the same
/// fingerprint.
pub proof fn lemma_hash_stability<Message, R: Renderer>(
    a: Element<Message, R>,
    b: Element<Message, R>,
    state: u64,
)
    requires
        same_layout_config(a, b),
    ensures
        a.spec_hash_layout(state) == b.spec_hash_layout(state),
    decreases a,
{
    match (a, b) {
        (Element::Hover(x), Element::Hover(y)) => {
            let tagged = spec_mix(state, 1);
            let sized = x.height.spec_hash(x.width.spec_hash(tagged));
            let floored = spec_mix(spec_mix(sized, x.min_width as u64), x.min_height as u64);
            let padded = spec_mix(floored, x.padding as u64);
            lemma_hash_stability(x.content, y.content, padded);
        },
        _ => {},
    }
}

/// Law: layout is determined by the layout-affecting configuration. Two
/// widget trees with the same configuration produce the same layout under
/// every envelope; together with the hash law, a widget tree whose
/// configuration is unchanged can reuse both its fingerprint and its
/// layout.
pub proof fn lemma_layout_stability<Message, R: Renderer>(
    a: Element<Message, R>,
    b: Element<Message, R>,
    limits: Limits,
)
    requires
        same_layout_config(a, b),
    ensures
        a.spec_layout(limits) == b.spec_layout(limits),
    decreases a,
{
    match (a, b) {
        (Element::Hover(x), Element::Hover(y)) => {
            lemma_layout_stability(x.content, y.content, x.spec_child_limits(limits));
        },
        _ => {},
    }
}

/// Whether the box `b` holds exactly the hover area `area`.
pub open spec fn boxes<Message, R: Renderer>(
    b: Box<HoverArea<Message, R>>,
    area: HoverArea<Message, R>,
) -> bool {
    *b == area
}

impl<Message, R: Renderer> From<HoverArea<Message, R>> for Element<Message, R> {
    /// Wraps a hover area as a generic widget.
    fn from(area: HoverArea<Message, R>) -> (e: Element<Message, R>) {
        let ghost original = area;
        let boxed = Box::new(area);
        proof {
            assert(boxes(boxed, original));
        }
        Element::Hover(boxed)
    }
}

impl<Message, R: Renderer> vstd::std_specs::convert::FromSpecImpl<HoverArea<Message, R>> for Element<Message, R> {
    open spec fn obeys_from_spec() -> bool {
        true
    }

    open spec fn from_spec(area: HoverArea<Message, R>) -> Element<Message, R> {
        Element::Hover(choose|b: Box<HoverArea<Message, R>>| boxes(b, area))
    }
}

} // verus!
