use cellui::{Label, Panel, Point, Progress, Rect, Renderable, Widget, WidgetError};

fn bordered() -> Panel<'static> {
    Panel::new(Rect::new(0, 0, 10, 4), true).unwrap()
}

#[test]
fn border_takes_corners_sides_and_caps() {
    let panel = bordered();
    assert_eq!(panel.render(0, 0), Some('+'));
    assert_eq!(panel.render(5, 0), Some('-'));
    assert_eq!(panel.render(0, 2), Some('|'));
    assert_eq!(panel.render(10, 4), Some('+'));
    assert_eq!(panel.render(10, 0), Some('+'));
    assert_eq!(panel.render(0, 4), Some('+'));
    assert_eq!(panel.render(10, 2), Some('|'));
    assert_eq!(panel.render(5, 4), Some('-'));
}

#[test]
fn childless_panel_is_blank_inside() {
    let panel = bordered();
    for y in 1..=3 {
        for x in 1..=9 {
            assert_eq!(panel.render(x, y), Some(' '), "cell ({}, {})", x, y);
        }
    }
}

#[test]
fn panel_draws_nothing_exactly_outside_its_rectangle() {
    let panel = Panel::new(Rect::new(3, 2, 10, 4), true).unwrap();
    for y in -3..12 {
        for x in -3..20 {
            let inside = (3..=13).contains(&x) && (2..=6).contains(&y);
            assert_eq!(panel.render(x, y).is_some(), inside, "cell ({}, {})", x, y);
        }
    }
}

#[test]
fn far_edge_belongs_to_the_panel() {
    let panel = Panel::new(Rect::new(0, 0, 10, 4), false).unwrap();
    assert_eq!(panel.render(10, 4), Some(' '));
    assert_eq!(panel.render(11, 4), None);
    assert_eq!(panel.render(10, 5), None);
    assert_eq!(panel.render(-1, 0), None);
    assert_eq!(panel.render(0, -1), None);
}

#[test]
fn unbordered_panel_is_blank_on_its_edges() {
    let panel = Panel::new(Rect::new(0, 0, 10, 4), false).unwrap();
    assert_eq!(panel.render(0, 0), Some(' '));
    assert_eq!(panel.render(5, 0), Some(' '));
    assert_eq!(panel.render(0, 2), Some(' '));
}

#[test]
fn panel_of_no_extent_is_one_cell() {
    let plain = Panel::new(Rect::new(2, 2, 0, 0), false).unwrap();
    assert_eq!(plain.render(2, 2), Some(' '));
    assert_eq!(plain.render(3, 2), None);
    let framed = Panel::new(Rect::new(2, 2, 0, 0), true).unwrap();
    assert_eq!(framed.render(2, 2), Some('+'));
}

#[test]
fn child_is_asked_in_panel_coordinates() {
    let mut panel = Panel::new(Rect::new(5, 5, 10, 10), false).unwrap();
    panel.add_child(Widget::Label(Label::new(Point::new(1, 1), "Hi")));
    assert_eq!(panel.render(6, 6), Some('H'));
    assert_eq!(panel.render(7, 6), Some('i'));
    assert_eq!(panel.render(8, 6), Some(' '));
    assert_eq!(panel.render(5, 6), Some(' '));
    assert_eq!(panel.render(6, 5), Some(' '));
    assert_eq!(panel.render(6, 7), Some(' '));
}

#[test]
fn earlier_child_wins_where_two_overlap() {
    let mut panel = Panel::new(Rect::new(0, 0, 10, 4), false).unwrap();
    panel.add_child(Widget::Label(Label::new(Point::new(1, 1), "AAAA")));
    panel.add_child(Widget::Label(Label::new(Point::new(3, 1), "BBBB")));
    assert_eq!(panel.render(1, 1), Some('A'));
    assert_eq!(panel.render(3, 1), Some('A'));
    assert_eq!(panel.render(4, 1), Some('A'));
    assert_eq!(panel.render(5, 1), Some('B'));
    assert_eq!(panel.render(6, 1), Some('B'));
    assert_eq!(panel.render(7, 1), Some(' '));
}

#[test]
fn border_hides_children_on_the_edge() {
    let mut panel = bordered();
    panel.add_child(Widget::Label(Label::new(Point::new(0, 0), "xyz")));
    assert_eq!(panel.render(0, 0), Some('+'));
    assert_eq!(panel.render(1, 0), Some('-'));
    let mut plain = Panel::new(Rect::new(0, 0, 10, 4), false).unwrap();
    plain.add_child(Widget::Label(Label::new(Point::new(0, 0), "xyz")));
    assert_eq!(plain.render(0, 0), Some('x'));
    assert_eq!(plain.render(1, 0), Some('y'));
}

#[test]
fn nested_panels_translate_twice() {
    let mut root = Panel::new(Rect::new(0, 0, 32, 10), true).unwrap();
    let mut child = Panel::new(Rect::new(9, 3, 9, 4), true).unwrap();
    let mut bar = Progress::new(Point::new(1, 1), 8).unwrap();
    bar.set_value(5);
    child.add_child(Widget::Progress(bar));
    root.add_child(Widget::Panel(child));
    root.add_child(Widget::Panel(Panel::new(Rect::new(3, 2, 10, 4), true).unwrap()));
    root.add_child(Widget::Label(Label::new(Point::new(1, 1), "Hello!")));

    assert_eq!(root.render(0, 0), Some('+'));
    assert_eq!(root.render(1, 1), Some('H'));
    assert_eq!(root.render(6, 1), Some('!'));
    assert_eq!(root.render(7, 1), Some(' '));
    // the first child panel spans columns 9..=18 and rows 3..=7
    assert_eq!(root.render(9, 3), Some('+'));
    assert_eq!(root.render(18, 7), Some('+'));
    // its bar starts at (10, 4): brackets at 10 and 17, six steps, value 5
    assert_eq!(root.render(10, 4), Some('['));
    assert_eq!(root.render(11, 4), Some('='));
    assert_eq!(root.render(15, 4), Some('='));
    assert_eq!(root.render(16, 4), Some(' '));
    assert_eq!(root.render(17, 4), Some(']'));
    // the second child panel is hidden where the first one lies
    assert_eq!(root.render(3, 2), Some('+'));
    assert_eq!(root.render(13, 2), Some('+'));
    assert_eq!(root.render(13, 4), Some('='));
    assert_eq!(root.render(13, 5), Some(' '));
    assert_eq!(root.render(13, 6), Some(' '));
    assert_eq!(root.render(8, 6), Some('-'));
    assert_eq!(root.render(9, 6), Some('|'));
}

#[test]
fn render_is_repeatable() {
    let mut panel = bordered();
    panel.add_child(Widget::Label(Label::new(Point::new(2, 1), "twice")));
    for y in -1..6 {
        for x in -1..12 {
            assert_eq!(panel.render(x, y), panel.render(x, y));
        }
    }
}

#[test]
fn render_takes_every_coordinate() {
    let mut panel = Panel::new(Rect::new(i32::MAX - 1, i32::MAX - 1, i32::MAX, i32::MAX), true).unwrap();
    panel.add_child(Widget::Label(Label::new(Point::new(i32::MIN, 0), "far")));
    panel.add_child(Widget::Progress(Progress::with_range(Point::new(i32::MIN, 1), i32::MAX, i32::MIN, i32::MAX).unwrap()));
    assert_eq!(panel.render(i32::MIN, i32::MIN), None);
    assert_eq!(panel.render(i32::MAX, i32::MAX), Some(' '));
    assert_eq!(panel.render(i32::MAX - 1, i32::MAX), Some('|'));
    assert_eq!(panel.render(0, 0), None);
}

#[test]
fn negative_extent_is_refused() {
    assert_eq!(Panel::new(Rect::new(0, 0, -1, 4), true).err(), Some(WidgetError::InvalidGeometry));
    assert_eq!(Panel::new(Rect::new(0, 0, 4, -1), false).err(), Some(WidgetError::InvalidGeometry));
    assert_eq!(Panel::new(Rect::new(0, 0, i32::MIN, i32::MIN), false).err(), Some(WidgetError::InvalidGeometry));
    assert!(Panel::new(Rect::new(-5, -5, 0, 0), true).is_ok());
}

#[test]
fn panel_reports_what_it_was_built_with() {
    let mut panel = Panel::new(Rect::new(1, 2, 3, 4), true).unwrap();
    assert_eq!(panel.rect(), Rect { x: 1, y: 2, w: 3, h: 4 });
    assert!(panel.has_border());
    assert_eq!(panel.child_count(), 0);
    panel.add_child(Widget::Label(Label::new(Point::new(0, 0), "a")));
    assert_eq!(panel.child_count(), 1);
    assert_eq!(panel.rect(), Rect::new(1, 2, 3, 4));
}

#[test]
fn widget_renders_as_what_it_holds() {
    let label = Widget::Label(Label::new(Point::new(0, 0), "ab"));
    assert_eq!(label.render(1, 0), Some('b'));
    let bar = Widget::Progress(Progress::new(Point::new(0, 0), 4).unwrap());
    assert_eq!(bar.render(3, 0), Some(']'));
    let panel = Widget::Panel(Panel::new(Rect::new(0, 0, 2, 2), true).unwrap());
    assert_eq!(panel.render(1, 1), Some(' '));
    assert_eq!(panel.render(3, 3), None);
}

#[test]
fn panel_holds_any_renderable_in_a_box() {
    let mut panel = Panel::new(Rect::new(2, 2, 6, 4), false).unwrap();
    let inner: Box<dyn Renderable> = Box::new(Panel::new(Rect::new(0, 0, 2, 2), true).unwrap());
    panel.add_child(Widget::Custom(inner));
    panel.add_child(Widget::Custom(Box::new(Label::new(Point::new(1, 1), "abcd"))));
    panel.add_child(Widget::Custom(Box::new(Widget::Progress(
        Progress::new(Point::new(0, 3), 5).unwrap(),
    ))));
    // the boxed panel comes first and is opaque
    assert_eq!(panel.render(2, 2), Some('+'));
    assert_eq!(panel.render(3, 3), Some(' '));
    assert_eq!(panel.render(4, 3), Some('|'));
    // the boxed label shows where the panel before it ends
    assert_eq!(panel.render(5, 3), Some('c'));
    assert_eq!(panel.render(6, 3), Some('d'));
    assert_eq!(panel.render(7, 3), Some(' '));
    // the boxed bar lies on local row 3
    assert_eq!(panel.render(2, 5), Some('['));
    assert_eq!(panel.render(3, 5), Some(' '));
    assert_eq!(panel.render(6, 5), Some(']'));
    assert_eq!(panel.render(9, 5), None);
}

#[test]
fn boxed_panel_shows_its_children() {
    let mut inner = Panel::new(Rect::new(0, 0, 8, 2), false).unwrap();
    inner.add_child(Widget::Label(Label::new(Point::new(0, 0), "shared")));
    let boxed: Box<dyn Renderable + 'static> = Box::new(inner);
    let mut panel: Panel<'static> = Panel::new(Rect::new(1, 1, 8, 2), false).unwrap();
    panel.add_child(Widget::Custom(boxed));
    assert_eq!(panel.render(1, 1), Some('s'));
    assert_eq!(panel.render(6, 1), Some('d'));
    assert_eq!(panel.render(7, 1), Some(' '));
}
