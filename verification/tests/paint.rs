use wingui::colors::{Color, NamedColor};
use wingui::controls::label::Label;
use wingui::controls::{Control, Notification};
use wingui::font::FontBuilder;
use wingui::geometry::Rect;
use wingui::ml::{DeviceContext, DrawText, Handle, PaintContext, PaintStruct, Paintable};
use wingui::window::WindowCore;

fn cycle(left: i32, top: i32, right: i32, bottom: i32) -> PaintContext {
    PaintContext::begin_paint(
        Handle(7),
        Handle(9),
        PaintStruct { erase: false, rc_paint: Rect::new(left, top, right, bottom) },
    )
}

fn test_label() -> Label {
    let mut label = Label::new();
    label.text = "Test".to_string();
    label.foreground_color = NamedColor::White.color();
    label.width = 100;
    label.height = 20;
    label
}

fn label_at(x: usize, y: usize, text: &str) -> Label {
    let mut label = test_label();
    label.set_position(x, y);
    label.text = text.to_string();
    label
}

struct Any(Box<dyn Paintable>);

impl Paintable for Any {
    fn paint(&self, c: &PaintContext) -> Vec<DrawText> {
        self.0.paint(c)
    }

    fn needs_repaint(&self, c: &PaintContext) -> bool {
        self.0.needs_repaint(c)
    }
}

struct Banner;

impl Paintable for Banner {
    fn paint(&self, c: &PaintContext) -> Vec<DrawText> {
        let mut first = label_at(0, 0, "one").paint(c);
        let mut second = label_at(0, 0, "two").paint(c);
        first.append(&mut second);
        first
    }

    fn needs_repaint(&self, _c: &PaintContext) -> bool {
        true
    }
}

#[test]
fn new_label_is_empty_black_and_at_the_origin() {
    let label = Label::new();
    assert_eq!(label.pos_x, 0);
    assert_eq!(label.pos_y, 0);
    assert_eq!(label.width, 0);
    assert_eq!(label.height, 0);
    assert_eq!(label.text, "");
    assert_eq!(label.foreground_color, Color(0, 0, 0, 0));
    assert_eq!(label.font_builder, FontBuilder::new());
    assert_eq!(label.bounds(), Rect::new(0, 0, 0, 0));
}

#[test]
fn set_position_moves_the_label_and_keeps_the_rest() {
    let mut label = test_label();
    label.set_position(30, 40);
    assert_eq!(label.pos_x, 30);
    assert_eq!(label.pos_y, 40);
    assert_eq!(label.width, 100);
    assert_eq!(label.height, 20);
    assert_eq!(label.text, "Test");
    assert_eq!(label.bounds(), Rect::new(30, 40, 130, 60));
}

#[test]
fn bounds_stop_at_the_edge_of_the_coordinates() {
    let mut label = test_label();
    label.set_position(usize::MAX, 2_147_483_647);
    assert_eq!(label.bounds(), Rect::new(i32::MAX, i32::MAX, i32::MAX, i32::MAX));
    label.set_position(2_147_483_600, 5);
    assert_eq!(label.bounds(), Rect::new(2_147_483_600, 5, i32::MAX, 25));
    label.set_position(2_147_483_547, 5);
    assert_eq!(label.bounds(), Rect::new(2_147_483_547, 5, i32::MAX, 25));
    label.set_position(2_147_483_546, 5);
    assert_eq!(label.bounds(), Rect::new(2_147_483_546, 5, 2_147_483_646, 25));
}

#[test]
fn label_draws_its_text_in_its_colour_and_font() {
    let mut label = test_label();
    label.font_builder.set_height(24).set_face("Fira Code".to_string());
    let drawn = label.paint(&cycle(200, 200, 300, 300));
    assert_eq!(drawn.len(), 1);
    assert_eq!(
        drawn[0],
        DrawText {
            font: label.font_builder.build(),
            color: 0x00ff_ffff,
            background_mode: 1,
            text: "Test".to_string(),
            rect: Rect::new(0, 0, 100, 20),
            format: 0x100,
        }
    );
    assert_eq!(drawn[0].font.height, 24);
    assert_eq!(drawn[0].font.face, "Fira Code");
}

#[test]
fn label_in_dirty_region_draws_once() {
    let label = test_label();
    let c = cycle(0, 0, 50, 50);
    assert!(label.needs_repaint(&c));
    let mut core = WindowCore::from_handle(Handle(7));
    core.add_control(label);
    assert_eq!(core.repaint_order(&c), vec![0]);
    let drawn = core.paint(&c);
    assert_eq!(drawn.len(), 1);
    assert_eq!(drawn[0].text, "Test");
    assert_eq!(drawn[0].color, 0x00ff_ffff);
    assert_eq!(drawn[0].rect, Rect::new(0, 0, 100, 20));
}

#[test]
fn label_outside_dirty_region_draws_nothing() {
    let label = test_label();
    let c = cycle(200, 200, 300, 300);
    assert!(!label.needs_repaint(&c));
    let mut core = WindowCore::from_handle(Handle(7));
    core.add_control(label);
    assert_eq!(core.repaint_order(&c), Vec::<usize>::new());
    assert_eq!(core.paint(&c).len(), 0);
}

#[test]
fn label_aligned_with_dirty_region_on_one_axis_is_not_concerned() {
    let label = test_label();
    assert!(!label.needs_repaint(&cycle(0, 200, 50, 300)));
    assert!(!label.needs_repaint(&cycle(200, 0, 300, 10)));
    assert!(label.needs_repaint(&cycle(100, 20, 300, 300)));
    assert!(!label.needs_repaint(&cycle(101, 20, 300, 300)));
    assert!(label.needs_repaint(&cycle(-50, -50, 0, 0)));
    assert!(label.needs_repaint(&cycle(-1000, -1000, 1000, 1000)));
    assert!(label.needs_repaint(&cycle(40, 5, 41, 6)));
}

#[test]
fn only_concerned_controls_are_drawn_in_the_order_they_were_added() {
    let mut core = WindowCore::from_handle(Handle(7));
    core.add_control(label_at(0, 0, "a"));
    core.add_control(label_at(500, 500, "b"));
    core.add_control(label_at(40, 10, "c"));
    core.add_control(label_at(0, 300, "d"));
    core.add_control(label_at(10, 10, "e"));
    assert_eq!(core.control_count(), 5);
    let c = cycle(0, 0, 50, 50);
    assert_eq!(core.repaint_order(&c), vec![0, 2, 4]);
    let drawn = core.paint(&c);
    let texts: Vec<&str> = drawn.iter().map(|d| d.text.as_str()).collect();
    assert_eq!(texts, vec!["a", "c", "e"]);
    let all = core.paint(&cycle(0, 0, 1000, 1000));
    let texts: Vec<&str> = all.iter().map(|d| d.text.as_str()).collect();
    assert_eq!(texts, vec!["a", "b", "c", "d", "e"]);
    assert_eq!(core.paint(&cycle(2000, 2000, 3000, 3000)).len(), 0);
}

#[test]
fn window_without_controls_draws_nothing() {
    let core: WindowCore<Label> = WindowCore::from_handle(Handle(7));
    assert_eq!(core.handle(), Handle(7));
    assert_eq!(core.control_count(), 0);
    assert!(core.needs_repaint(&cycle(0, 0, 1, 1)));
    assert_eq!(core.paint(&cycle(0, 0, 1, 1)).len(), 0);
}

#[test]
fn controls_of_several_kinds_share_a_window() {
    let c = cycle(200, 200, 300, 300);
    let mut core = WindowCore::from_handle(Handle(7));
    core.add_control(Any(Box::new(Banner)));
    core.add_control(Any(Box::new(test_label())));
    core.add_control(Any(Box::new(label_at(250, 250, "three"))));
    assert_eq!(core.repaint_order(&c), vec![0, 2]);
    let drawn = core.paint(&c);
    let texts: Vec<&str> = drawn.iter().map(|d| d.text.as_str()).collect();
    assert_eq!(texts, vec!["one", "two", "three"]);
}

#[test]
fn identifiers_count_up_from_zero() {
    let mut core: WindowCore<Label> = WindowCore::from_handle(Handle(7));
    assert_eq!(core.get_unique_id(), 0);
    assert_eq!(core.get_unique_id(), 1);
    core.add_control(test_label());
    assert_eq!(core.get_unique_id(), 2);
    assert_eq!(core.control_count(), 1);
    assert_eq!(core.handle(), Handle(7));
}

#[test]
fn label_ignores_notifications() {
    let mut label = label_at(3, 4, "n");
    label.handle_notify(&Notification { hwnd_from: Handle(1), id_from: 2, code: 3 });
    assert_eq!(label.pos_x, 3);
    assert_eq!(label.pos_y, 4);
    assert_eq!(label.text, "n");
    assert_eq!(label.bounds(), Rect::new(3, 4, 103, 24));
}

#[test]
fn contexts_keep_what_the_system_handed_out() {
    let dc = DeviceContext::from_hwnd(Handle(3), Handle(4));
    assert_eq!(dc.window, Handle(3));
    assert_eq!(dc.surface(), Handle(4));
    let c = cycle(1, 2, 3, 4);
    assert_eq!(c.window, Handle(7));
    assert_eq!(c.surface(), Handle(9));
    assert_eq!(c.dirty(), Rect::new(1, 2, 3, 4));
    assert!(!c.paintstruct.erase);
}
