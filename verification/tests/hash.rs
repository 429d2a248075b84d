use iced::hover_area::Renderer;
use iced::{Element, Hasher, HoverArea, Layout, Length, Point, Rectangle, State};

struct TestRenderer;

impl Renderer for TestRenderer {
    type Defaults = ();
    type Style = ();
    type Output = ();

    fn default_padding() -> u16 {
        5
    }

    fn default_style() -> () {
        ()
    }

    fn draw<Message>(
        &mut self,
        _defaults: &(),
        _bounds: Rectangle,
        _cursor_position: Point,
        _is_disabled: bool,
        _is_hovered: bool,
        _style: &(),
        _content: &Element<Message, Self>,
        _content_layout: Layout<'_>,
    ) {
    }
}

#[derive(Clone, Debug, PartialEq, Eq)]
enum Msg {
    Hovered,
}

fn tree(padding: u16, width: Length, height: Length) -> Element<Msg, TestRenderer> {
    let child = Element::Space { width: Length::Units(100), height: Length::Units(50) };
    Element::from(
        HoverArea::new(State::new(), child).padding(padding).width(width).height(height),
    )
}

fn fingerprint(element: &Element<Msg, TestRenderer>) -> u64 {
    let mut hasher = Hasher::new();
    element.hash_layout(&mut hasher);
    hasher.finish()
}

#[test]
fn identical_configurations_hash_identically() {
    let a = tree(10, Length::Shrink, Length::Shrink);
    let b = tree(10, Length::Shrink, Length::Shrink);
    assert_eq!(fingerprint(&a), fingerprint(&b));
}

#[test]
fn the_message_does_not_affect_the_fingerprint() {
    let bare = tree(10, Length::Shrink, Length::Shrink);
    let child = Element::Space { width: Length::Units(100), height: Length::Units(50) };
    let with_message = Element::from(
        HoverArea::new(State::new(), child).padding(10).on_hover(Msg::Hovered),
    );
    assert_eq!(fingerprint(&bare), fingerprint(&with_message));
}

#[test]
fn changing_the_width_changes_the_fingerprint() {
    let a = tree(10, Length::Shrink, Length::Shrink);
    let b = tree(10, Length::Fill, Length::Shrink);
    let c = tree(10, Length::Units(120), Length::Shrink);
    assert_ne!(fingerprint(&a), fingerprint(&b));
    assert_ne!(fingerprint(&a), fingerprint(&c));
    assert_ne!(fingerprint(&b), fingerprint(&c));
}

#[test]
fn changing_the_height_changes_the_fingerprint() {
    let a = tree(10, Length::Shrink, Length::Shrink);
    let b = tree(10, Length::Shrink, Length::Units(70));
    assert_ne!(fingerprint(&a), fingerprint(&b));
}

#[test]
fn changing_the_padding_changes_the_fingerprint() {
    let a = tree(10, Length::Shrink, Length::Shrink);
    let b = tree(11, Length::Shrink, Length::Shrink);
    assert_ne!(fingerprint(&a), fingerprint(&b));
}

#[test]
fn changing_the_child_changes_the_fingerprint() {
    let a = tree(10, Length::Shrink, Length::Shrink);
    let other_child = Element::Space { width: Length::Units(101), height: Length::Units(50) };
    let b = Element::from(HoverArea::<Msg, TestRenderer>::new(State::new(), other_child).padding(10));
    assert_ne!(fingerprint(&a), fingerprint(&b));
}

#[test]
fn the_widget_kind_is_folded_in() {
    let leaf: Element<Msg, TestRenderer> =
        Element::Space { width: Length::Shrink, height: Length::Shrink };
    let wrapped = Element::from(HoverArea::<Msg, TestRenderer>::new(
        State::new(),
        Element::Space { width: Length::Shrink, height: Length::Shrink },
    ));
    assert_ne!(fingerprint(&leaf), fingerprint(&wrapped));
}

#[test]
fn the_hasher_is_deterministic() {
    let mut a = Hasher::new();
    let mut b = Hasher::new();
    for value in [0u64, 1, 42, u64::MAX] {
        a.write_u64(value);
        b.write_u64(value);
    }
    assert_eq!(a.finish(), b.finish());

    let mut c = Hasher::new();
    c.write_u32(7);
    let mut d = Hasher::new();
    d.write_u32(8);
    assert_ne!(c.finish(), d.finish());
}
