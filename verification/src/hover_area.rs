//! A widget that produces a message when the cursor enters its bounds.
//!
//! A hover area wraps one content element, pads it, and keeps some local
//! [`State`]. The message configured through `on_hover` is emitted exactly
//! once per continuous hover entry: on the event where the cursor enters the
//! bounds while it was previously outside, and never while it merely stays
//! inside or leaves.

use vstd::prelude::*;
use crate::element::Element;
use crate::geometry::{clamp_int, Point, Rectangle, Size};
use crate::hasher::{spec_mix, Hasher};
use crate::input::Event;
use crate::length::Length;
use crate::limits::Limits;
use crate::node::{Layout, LayoutModel, Node};
use crate::Clipboard;

verus! {

/// The local state of a hover area.
#[derive(Clone, Copy, Debug, PartialEq, Eq, Structural)]
pub struct State {
    /// Whether the cursor was inside the bounds at the last event.
    pub is_hovered: bool,
}

impl State {
    /// Creates a fresh state: the cursor starts outside.
    pub fn new() -> (s: State)
        ensures
            !s.is_hovered,
    {
        State { is_hovered: false }
    }
}

impl Default for State {
    /// The fresh state.
    fn default() -> (s: State)
        ensures
            !s.is_hovered,
    {
        State::new()
    }
}

/// The renderer of a hover area.
///
/// A rendering backend implements this trait before hover areas can appear
/// in its user interfaces. The core never draws pixels itself: it hands the
/// backend the resolved bounds, the interaction flags and the wrapped
/// content, and takes whatever output the backend defines.
pub trait Renderer: Sized {
    /// The drawing defaults the host threads through every draw call.
    type Defaults;

    /// The style supported by this renderer.
    type Style;

    /// The backend-defined output of one draw call.
    type Output;

    /// The padding a freshly built hover area starts with.
    fn default_padding() -> u16;

    /// The style a freshly built hover area starts with.
    fn default_style() -> Self::Style;

    /// Draws a hover area.
    ///
    /// `is_disabled` is true exactly when no hover message is configured;
    /// `is_hovered` reports the widget's current interaction state. The
    /// wrapped content arrives together with its computed sub-layout.
    fn draw<Message>(
        &mut self,
        defaults: &Self::Defaults,
        bounds: Rectangle,
        cursor_position: Point,
        is_disabled: bool,
        is_hovered: bool,
        style: &Self::Style,
        content: &Element<Message, Self>,
        content_layout: Layout<'_>,
    ) -> Self::Output;
}

/// A widget that wraps one content element and emits a message when the
/// cursor enters its bounds.
pub struct HoverArea<Message, R: Renderer> {
    pub state: State,
    pub content: Element<Message, R>,
    pub on_hover: Option<Message>,
    pub width: Length,
    pub height: Length,
    pub min_width: u32,
    pub min_height: u32,
    pub padding: u16,
    pub style: R::Style,
}

impl<Message, R: Renderer> HoverArea<Message, R> {
    /// Creates a new hover area with some local [`State`] and the given
    /// content, with the renderer's defaults for padding and style.
    pub fn new(state: State, content: Element<Message, R>) -> (area: HoverArea<Message, R>)
        ensures
            area.state == state,
            area.content == content,
            area.on_hover is None,
            area.width == Length::Shrink,
            area.height == Length::Shrink,
            area.min_width == 0,
            area.min_height == 0,
    {
        HoverArea {
            state,
            content,
            on_hover: None,
            width: Length::Shrink,
            height: Length::Shrink,
            min_width: 0,
            min_height: 0,
            padding: R::default_padding(),
            style: R::default_style(),
        }
    }

    /// Sets the width of the hover area.
    pub fn width(self, width: Length) -> (r: HoverArea<Message, R>)
        ensures
            r == (HoverArea { width, ..self }),
    {
        HoverArea { width, ..self }
    }

    /// Sets the height of the hover area.
    pub fn height(self, height: Length) -> (r: HoverArea<Message, R>)
        ensures
            r == (HoverArea { height, ..self }),
    {
        HoverArea { height, ..self }
    }

    /// Sets the minimum width of the hover area.
    pub fn min_width(self, min_width: u32) -> (r: HoverArea<Message, R>)
        ensures
            r == (HoverArea { min_width, ..self }),
    {
        HoverArea { min_width, ..self }
    }

    /// Sets the minimum height of the hover area.
    pub fn min_height(self, min_height: u32) -> (r: HoverArea<Message, R>)
        ensures
            r == (HoverArea { min_height, ..self }),
    {
        HoverArea { min_height, ..self }
    }

    /// Sets the padding of the hover area.
    pub fn padding(self, padding: u16) -> (r: HoverArea<Message, R>)
        ensures
            r == (HoverArea { padding, ..self }),
    {
        HoverArea { padding, ..self }
    }

    /// Sets the message that is produced when the cursor enters the hover
    /// area.
    pub fn on_hover(self, msg: Message) -> (r: HoverArea<Message, R>)
        ensures
            r == (HoverArea { on_hover: Some(msg), ..self }),
    {
        HoverArea { on_hover: Some(msg), ..self }
    }

    /// Sets the style of the hover area.
    pub fn style(self, style: R::Style) -> (r: HoverArea<Message, R>)
        ensures
            r == (HoverArea { style, ..self }),
    {
        HoverArea { style, ..self }
    }

    /// The envelope the hover area owns once it has narrowed the incoming
    /// limits by its minimums and its sizing policies.
    pub open spec fn spec_own_limits(self, limits: Limits) -> Limits {
        limits.spec_min_width(self.min_width).spec_min_height(self.min_height).spec_width(
            self.width,
        ).spec_height(self.height)
    }

    /// The envelope the content is laid out under: the own envelope shrunk
    /// by the padding.
    pub open spec fn spec_child_limits(self, limits: Limits) -> Limits {
        self.spec_own_limits(limits).spec_pad(self.padding)
    }

    /// The layout of a hover area under `limits`: the content is laid out
    /// under the padded envelope and placed at `(padding, padding)`; the
    /// hover area itself takes the content's resolved size grown back by
    /// the padding on every side.
    pub open spec fn spec_layout(self, limits: Limits) -> LayoutModel
        decreases self,
    {
        let child_limits = self.spec_child_limits(limits);
        let child = self.content.spec_layout(child_limits);
        let placed = LayoutModel {
            bounds: Rectangle {
                x: self.padding as u32,
                y: self.padding as u32,
                width: child.bounds.width,
                height: child.bounds.height,
            },
            children: child.children,
        };
        let size = child_limits.spec_resolve(child.size()).spec_pad(self.padding);
        LayoutModel {
            bounds: Rectangle { x: 0, y: 0, width: size.width, height: size.height },
            children: seq![placed],
        }
    }

    /// Lays the hover area out: bottom-up for the content's size, then
    /// top-down for its own.
    pub fn layout(&self, renderer: &R, limits: &Limits) -> (node: Node)
        ensures
            node.model() == self.spec_layout(*limits),
            node.children@.len() == 1,
        decreases *self,
    {
        let padding = self.padding;
        let child_limits = limits.min_width(self.min_width).min_height(self.min_height).width(
            self.width,
        ).height(self.height).pad(padding);

        let mut content = self.content.layout(renderer, &child_limits);
        content.bounds.x = padding as u32;
        content.bounds.y = padding as u32;
        let ghost placed_node = content;

        let size = child_limits.resolve(content.size()).pad(padding);

        let mut children: Vec<Node> = Vec::new();
        children.push(content);
        let node = Node::with_children(size, children);
        proof {
            reveal_with_fuel(crate::node::models, 3);
            assert(node.children@ =~= seq![placed_node]);
            assert(crate::node::models(node.children@).len() == 1);
            assert(crate::node::models(node.children@)[0] == placed_node.model());
            assert(node.model().children =~= seq![placed_node.model()]);
            assert(node.model() =~~= self.spec_layout(*limits));
        }
        node
    }

    /// The hover area after one event handled against the given absolute
    /// bounds: the state records whether the cursor is inside; everything
    /// else is kept.
    pub open spec fn spec_after_event(self, bounds: Rectangle, cursor: Point) -> HoverArea<
        Message,
        R,
    > {
        HoverArea { state: State { is_hovered: bounds.spec_contains(cursor) }, ..self }
    }

    /// How many messages one event emits: one on the rising edge of hover
    /// — the cursor is inside, it was outside, and a message is configured
    /// — and none otherwise.
    pub open spec fn spec_emitted(self, bounds: Rectangle, cursor: Point) -> nat {
        if bounds.spec_contains(cursor) && !self.state.is_hovered && self.on_hover is Some {
            1
        } else {
            0
        }
    }

    /// Draws the hover area by deferring to the renderer, handing it the
    /// resolved bounds, the disabled flag (no message configured), the
    /// hover state and the content with its sub-layout.
    pub fn draw(
        &self,
        renderer: &mut R,
        defaults: &R::Defaults,
        layout: Layout<'_>,
        cursor_position: Point,
    ) -> (output: R::Output)
        requires
            layout.node.children@.len() >= 1,
    {
        let bounds = layout.bounds();
        let content_layout = layout.child(0);
        renderer.draw(
            defaults,
            bounds,
            cursor_position,
            self.on_hover.is_none(),
            self.state.is_hovered,
            &self.style,
            &self.content,
            content_layout,
        )
    }

    /// The hash state after folding in every layout-affecting attribute: a
    /// tag for the widget kind, both sizing policies, the minimums, the
    /// padding, and recursively the content.
    pub open spec fn spec_hash_layout(self, state: u64) -> u64
        decreases self,
    {
        let tagged = spec_mix(state, 1);
        let sized = self.height.spec_hash(self.width.spec_hash(tagged));
        let floored = spec_mix(spec_mix(sized, self.min_width as u64), self.min_height as u64);
        let padded = spec_mix(floored, self.padding as u64);
        self.content.spec_hash_layout(padded)
    }

    /// Folds every layout-affecting attribute into `state`.
    pub fn hash_layout(&self, state: &mut Hasher)
        ensures
            final(state).state == self.spec_hash_layout(old(state).state),
        decreases *self,
    {
        state.write_u64(1);
        self.width.hash(state);
        self.height.hash(state);
        state.write_u32(self.min_width);
        state.write_u32(self.min_height);
        state.write_u64(self.padding as u64);
        self.content.hash_layout(state);
    }
}

impl<Message: Clone, R: Renderer> HoverArea<Message, R> {
    /// Handles one event: records whether the cursor is inside the given
    /// absolute bounds, and emits the configured message exactly on the
    /// rising edge of hover. No other state changes, and the queue keeps
    /// everything already in it.
    pub fn on_event<C: Clipboard>(
        &mut self,
        event: Event,
        layout: Layout<'_>,
        cursor_position: Point,
        messages: &mut Vec<Message>,
        renderer: &R,
        clipboard: Option<&C>,
    )
        ensures
            *final(self) == old(self).spec_after_event(layout.spec_bounds(), cursor_position),
            final(messages)@.len() == old(messages)@.len() + old(self).spec_emitted(
                layout.spec_bounds(),
                cursor_position,
            ),
            final(messages)@.subrange(0, old(messages)@.len() as int) == old(messages)@,
            old(self).spec_emitted(layout.spec_bounds(), cursor_position) == 1 ==> vstd::pervasive::cloned::<
                Message,
            >(old(self).on_hover->Some_0, final(messages)@.last()),
    {
        let bounds = layout.bounds();
        let old_value = self.state.is_hovered;
        let new_value = bounds.contains(cursor_position);
        self.state.is_hovered = new_value;
        if new_value && new_value != old_value {
            match &self.on_hover {
                Some(on_hover) => {
                    messages.push(on_hover.clone());
                },
                None => {},
            }
        }
        proof {
            assert(messages@.subrange(0, old(messages)@.len() as int) =~= old(messages)@);
        }
    }
}

/// Law: the padding round trip. Laying a wrapped content out with padding
/// `p` places the content at `(p, p)` in the hover area's local
/// coordinates and keeps the content's computed size; the hover area's
/// own size is the content's size grown by `2 * p` per axis, clamped into
/// the envelope the hover area owns — provided the envelope is well
/// formed and the padding leaves room under its maximum.
pub proof fn lemma_padding_round_trip<Message, R: Renderer>(
    area: HoverArea<Message, R>,
    limits: Limits,
)
    requires
        limits.wf(),
        2 * (area.padding as int) <= area.spec_own_limits(limits).max_width,
        2 * (area.padding as int) <= area.spec_own_limits(limits).max_height,
    ensures
        ({
            let own = area.spec_own_limits(limits);
            let child = area.content.spec_layout(area.spec_child_limits(limits));
            let node = area.spec_layout(limits);
            &&& node.children.len() == 1
            &&& node.children[0].bounds.x == area.padding
            &&& node.children[0].bounds.y == area.padding
            &&& node.children[0].bounds.width == child.bounds.width
            &&& node.children[0].bounds.height == child.bounds.height
            &&& node.size().width == clamp_int(
                child.size().width + 2 * (area.padding as int),
                own.min_width as int,
                own.max_width as int,
            )
            &&& node.size().height == clamp_int(
                child.size().height + 2 * (area.padding as int),
                own.min_height as int,
                own.max_height as int,
            )
        }),
{
}

} // verus!
