use iced::hover_area::Renderer;
use iced::{
    Clipboard, Element, Event, HoverArea, Layout, Length, Limits, Point, Rectangle, Size, State,
};

struct RecordingRenderer {
    last_disabled: Option<bool>,
    last_hovered: Option<bool>,
}

impl Renderer for RecordingRenderer {
    type Defaults = ();
    type Style = ();
    type Output = ();

    fn default_padding() -> u16 {
        5
    }

    fn default_style() -> () {
        ()
    }

    fn draw<Message>(
        &mut self,
        _defaults: &(),
        _bounds: Rectangle,
        _cursor_position: Point,
        is_disabled: bool,
        is_hovered: bool,
        _style: &(),
        _content: &Element<Message, Self>,
        _content_layout: Layout<'_>,
    ) {
        self.last_disabled = Some(is_disabled);
        self.last_hovered = Some(is_hovered);
    }
}

struct NoClipboard;

impl Clipboard for NoClipboard {
    fn content(&self) -> Option<String> {
        None
    }
}

#[derive(Clone, Debug, PartialEq, Eq)]
enum Msg {
    Hovered,
}

fn renderer() -> RecordingRenderer {
    RecordingRenderer { last_disabled: None, last_hovered: None }
}

fn fixed_child() -> Element<Msg, RecordingRenderer> {
    Element::Space { width: Length::Units(100), height: Length::Units(50) }
}

fn limits() -> Limits {
    Limits::new(Size::new(0, 0), Size::new(800, 600))
}

#[test]
fn hover_message_fires_once_per_entry() {
    let r = renderer();
    let mut area =
        HoverArea::new(State::new(), fixed_child()).padding(10).on_hover(Msg::Hovered);
    let node = area.layout(&r, &limits());
    let mut messages: Vec<Msg> = Vec::new();

    let outside = Point::new(5000, 5000);
    let inside = Point::new(60, 35);

    // outside, inside, inside, outside, inside: two rising edges.
    for cursor in [outside, inside, inside, outside, inside] {
        area.on_event(
            Event::CursorMoved,
            Layout::new(&node),
            cursor,
            &mut messages,
            &r,
            None::<&NoClipboard>,
        );
    }

    assert_eq!(messages, vec![Msg::Hovered, Msg::Hovered]);
}

#[test]
fn staying_inside_is_a_no_op() {
    let r = renderer();
    let mut area =
        HoverArea::new(State::new(), fixed_child()).padding(10).on_hover(Msg::Hovered);
    let node = area.layout(&r, &limits());
    let mut messages: Vec<Msg> = Vec::new();

    let inside = Point::new(15, 15);
    for _ in 0..10 {
        area.on_event(
            Event::CursorMoved,
            Layout::new(&node),
            inside,
            &mut messages,
            &r,
            None::<&NoClipboard>,
        );
    }

    assert_eq!(messages.len(), 1);
}

#[test]
fn leaving_is_silent() {
    let r = renderer();
    let mut area =
        HoverArea::new(State::new(), fixed_child()).padding(10).on_hover(Msg::Hovered);
    let node = area.layout(&r, &limits());
    let mut messages: Vec<Msg> = Vec::new();

    for cursor in [Point::new(60, 35), Point::new(5000, 5000)] {
        area.on_event(
            Event::CursorMoved,
            Layout::new(&node),
            cursor,
            &mut messages,
            &r,
            None::<&NoClipboard>,
        );
    }

    assert_eq!(messages.len(), 1);
}

#[test]
fn without_a_message_nothing_is_ever_emitted() {
    let r = renderer();
    let mut area: HoverArea<Msg, RecordingRenderer> =
        HoverArea::new(State::new(), fixed_child()).padding(10);
    let node = area.layout(&r, &limits());
    let mut messages: Vec<Msg> = Vec::new();

    for cursor in [
        Point::new(5000, 5000),
        Point::new(60, 35),
        Point::new(60, 35),
        Point::new(5000, 5000),
        Point::new(60, 35),
    ] {
        area.on_event(
            Event::CursorMoved,
            Layout::new(&node),
            cursor,
            &mut messages,
            &r,
            None::<&NoClipboard>,
        );
    }

    assert!(messages.is_empty());
}

#[test]
fn draw_reports_disabled_without_a_message() {
    let mut r = renderer();
    let area: HoverArea<Msg, RecordingRenderer> =
        HoverArea::new(State::new(), fixed_child()).padding(10);
    let node = area.layout(&r, &limits());

    area.draw(&mut r, &(), Layout::new(&node), Point::new(60, 35));
    assert_eq!(r.last_disabled, Some(true));

    area.draw(&mut r, &(), Layout::new(&node), Point::new(5000, 5000));
    assert_eq!(r.last_disabled, Some(true));
}

#[test]
fn draw_reports_enabled_and_hover_state_with_a_message() {
    let mut r = renderer();
    let mut area =
        HoverArea::new(State::new(), fixed_child()).padding(10).on_hover(Msg::Hovered);
    let node = area.layout(&r, &limits());
    let mut messages: Vec<Msg> = Vec::new();

    area.draw(&mut r, &(), Layout::new(&node), Point::new(60, 35));
    assert_eq!(r.last_disabled, Some(false));
    assert_eq!(r.last_hovered, Some(false));

    area.on_event(
        Event::CursorMoved,
        Layout::new(&node),
        Point::new(60, 35),
        &mut messages,
        &r,
        None::<&NoClipboard>,
    );
    area.draw(&mut r, &(), Layout::new(&node), Point::new(60, 35));
    assert_eq!(r.last_hovered, Some(true));
}

#[test]
fn events_route_through_an_element_tree() {
    let r = renderer();
    let area = HoverArea::new(State::new(), fixed_child()).padding(10).on_hover(Msg::Hovered);
    let mut element = Element::from(area);
    let node = element.layout(&r, &limits());
    let mut messages: Vec<Msg> = Vec::new();

    element.on_event(
        Event::CursorMoved,
        Layout::new(&node),
        Point::new(60, 35),
        &mut messages,
        &r,
        None::<&NoClipboard>,
    );
    assert_eq!(messages, vec![Msg::Hovered]);

    // A bare leaf never reacts.
    let mut leaf = fixed_child();
    let leaf_node = leaf.layout(&r, &limits());
    leaf.on_event(
        Event::CursorMoved,
        Layout::new(&leaf_node),
        Point::new(10, 10),
        &mut messages,
        &r,
        None::<&NoClipboard>,
    );
    assert_eq!(messages.len(), 1);
}

#[test]
fn cursor_far_outside_hits_nothing() {
    let r = renderer();
    let mut area =
        HoverArea::new(State::new(), fixed_child()).padding(10).on_hover(Msg::Hovered);
    let node = area.layout(&r, &limits());
    let mut messages: Vec<Msg> = Vec::new();

    area.on_event(
        Event::CursorMoved,
        Layout::new(&node),
        Point::new(u32::MAX, u32::MAX),
        &mut messages,
        &r,
        None::<&NoClipboard>,
    );
    assert!(messages.is_empty());
}

#[test]
fn every_event_kind_drives_the_same_hit_logic() {
    let r = renderer();
    let mut area =
        HoverArea::new(State::new(), fixed_child()).padding(10).on_hover(Msg::Hovered);
    let node = area.layout(&r, &limits());
    let mut messages: Vec<Msg> = Vec::new();

    area.on_event(
        Event::Button(iced::ButtonState::Pressed),
        Layout::new(&node),
        Point::new(60, 35),
        &mut messages,
        &r,
        None::<&NoClipboard>,
    );
    assert_eq!(messages.len(), 1);

    area.on_event(
        Event::Keyboard(iced::ButtonState::Released),
        Layout::new(&node),
        Point::new(60, 35),
        &mut messages,
        &r,
        None::<&NoClipboard>,
    );
    assert_eq!(messages.len(), 1);
}

#[test]
fn bounds_edges_are_half_open() {
    let rect = Rectangle::new(10, 10, 100, 50);
    assert!(rect.contains(Point::new(10, 10)));
    assert!(rect.contains(Point::new(109, 59)));
    assert!(!rect.contains(Point::new(110, 59)));
    assert!(!rect.contains(Point::new(109, 60)));
    assert!(!rect.contains(Point::new(9, 10)));
}
