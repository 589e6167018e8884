use wingui::colors::Color;
use wingui::controls::label::Label;
use wingui::ml::{created, DrawText, Handle, PaintContext, Paintable, WindowStyle};
use wingui::window::{
    registered, Window, WindowBuilder, WindowClass, WindowClassBuilder, WindowCore,
};

struct Plain {
    core: WindowCore<Label>,
}

impl Paintable for Plain {
    fn paint(&self, c: &PaintContext) -> Vec<DrawText> {
        self.core.paint(c)
    }

    fn needs_repaint(&self, _c: &PaintContext) -> bool {
        true
    }
}

impl Window for Plain {
    type Control = Label;

    fn init_handle(&mut self, handle: Handle) {
        self.core = WindowCore::from_handle(handle);
    }

    fn get_core(&self) -> &WindowCore<Label> {
        &self.core
    }

    fn get_core_mut(&mut self) -> &mut WindowCore<Label> {
        &mut self.core
    }
}

impl WindowClass for Plain {
    fn class_name() -> &'static str {
        "my_wnd_class_ex"
    }

    fn default_title() -> &'static str {
        "My Window Title"
    }

    fn new() -> Self {
        Plain { core: WindowCore::from_handle(Handle(0)) }
    }
}

struct Fancy;

impl WindowClass for Fancy {
    fn class_name() -> &'static str {
        "fancy"
    }

    fn default_title() -> &'static str {
        "Fancy"
    }

    fn default_class_style() -> u32 {
        0x0008
    }

    fn default_menu_name() -> &'static str {
        "MainMenu"
    }

    fn new() -> Self {
        Fancy
    }
}

#[test]
fn class_defaults_are_the_documented_ones() {
    assert_eq!(Plain::default_extended_style(), 0x0000_0200);
    assert_eq!(Plain::default_style(), 0x00cf_0000);
    assert_eq!(Plain::default_class_style(), 0x0002_0003);
    assert_eq!(Plain::default_icon(), 32512);
    assert_eq!(Plain::default_icon_small(), 32512);
    assert_eq!(Plain::default_cursor(), 32512);
    assert_eq!(Plain::default_menu_name(), "");
    assert_eq!(Plain::default_background_brush(), Color(0, 255, 255, 255));
}

#[test]
fn window_defaults_are_the_documented_ones() {
    let mut w = <Plain as WindowClass>::new();
    assert_eq!(w.get_debug_name(), "Window Base");
    w.on_create();
    w.init_handle(Handle(5));
    assert_eq!(w.get_core().handle(), Handle(5));
    assert_eq!(w.get_unique_id(), 0);
    assert_eq!(w.get_unique_id(), 1);
    assert_eq!(w.get_core_mut().get_unique_id(), 2);
}

#[test]
fn window_builder_starts_from_the_class() {
    let b = WindowBuilder::<Plain>::new(Handle(0x400000));
    assert_eq!(b.ex_style, 0x0000_0200);
    assert_eq!(b.class_name, "my_wnd_class_ex");
    assert_eq!(b.window_name, "My Window Title");
    assert_eq!(b.style, 0x00cf_0000);
    assert_eq!(b.pos_x, i32::MIN);
    assert_eq!(b.pos_y, i32::MIN);
    assert_eq!(b.width, i32::MIN);
    assert_eq!(b.height, i32::MIN);
    assert_eq!(b.parent, Handle(0));
    assert_eq!(b.menu, Handle(0));
    assert_eq!(b.hinstance, Handle(0x400000));
    assert_eq!(b.lp_param, 0);
}

#[test]
fn window_builder_setters_change_one_property_each() {
    let request = WindowBuilder::<Plain>::new(Handle(1))
        .set_title("Test Window".to_string())
        .set_width(400)
        .set_height(300)
        .set_position(10, 20)
        .set_parent(Handle(77))
        .set_menu(Handle(88))
        .set_lp_param(99)
        .build();
    assert_eq!(request.ex_style, 0x0000_0200);
    assert_eq!(request.class_name, "my_wnd_class_ex");
    assert_eq!(request.window_name, "Test Window");
    assert_eq!(request.style, 0x00cf_0000);
    assert_eq!(request.pos_x, 10);
    assert_eq!(request.pos_y, 20);
    assert_eq!(request.width, 400);
    assert_eq!(request.height, 300);
    assert_eq!(request.parent, Handle(77));
    assert_eq!(request.menu, Handle(88));
    assert_eq!(request.hinstance, Handle(1));
}

#[test]
fn class_builder_starts_from_the_class() {
    let b = WindowClassBuilder::<Plain>::new();
    assert_eq!(b.class_name, "my_wnd_class_ex");
    assert_eq!(b.style, 0x0002_0003);
    assert_eq!(b.menu_name, "");
    assert_eq!(b.class_extra, 0);
    assert_eq!(b.window_extra, 0);
    assert_eq!(b.icon, Handle(0));
    assert_eq!(b.icon_small, Handle(0));
    assert_eq!(b.cursor, Handle(0));
    assert_eq!(b.background_brush, Handle(0));
    let f = WindowClassBuilder::<Fancy>::new();
    assert_eq!(f.class_name, "fancy");
    assert_eq!(f.style, 0x0008);
    assert_eq!(f.menu_name, "MainMenu");
}

#[test]
fn class_without_menu_name_registers_without_menu() {
    let request = WindowClassBuilder::<Plain>::new().register(Handle(0x400000));
    assert_eq!(request.menu_name, None);
    assert_eq!(request.class_name, "my_wnd_class_ex");
    assert_eq!(request.style, 0x0002_0003);
    assert_eq!(request.instance, Handle(0x400000));
    assert_eq!(request.class_extra, 0);
    assert_eq!(request.window_extra, 0);
}

#[test]
fn class_builder_setters_change_one_property_each() {
    let style = WindowStyle::from_bits(0x0003).unwrap();
    let request = WindowClassBuilder::<Fancy>::new()
        .set_style(style)
        .set_class_extra(4)
        .set_window_extra(8)
        .set_icon(Handle(11))
        .set_icon_small(Handle(12))
        .set_cursor(Handle(13))
        .set_background_brush(Handle(14))
        .set_menu_name("Other".to_string())
        .set_class_name("renamed".to_string())
        .register(Handle(15));
    assert_eq!(request.style, 0x0003);
    assert_eq!(request.class_extra, 4);
    assert_eq!(request.window_extra, 8);
    assert_eq!(request.icon, Handle(11));
    assert_eq!(request.icon_small, Handle(12));
    assert_eq!(request.cursor, Handle(13));
    assert_eq!(request.background_brush, Handle(14));
    assert_eq!(request.menu_name, Some("Other".to_string()));
    assert_eq!(request.class_name, "renamed");
    assert_eq!(request.instance, Handle(15));
    let cleared =
        WindowClassBuilder::<Fancy>::new().set_menu_name(String::new()).register(Handle(1));
    assert_eq!(cleared.menu_name, None);
}

#[test]
fn registration_fails_with_the_error_code_on_a_zero_atom() {
    assert_eq!(registered(0, 1410), Err(1410));
    assert_eq!(registered(0xc001, 1410), Ok(()));
    assert_eq!(registered(1, 0), Ok(()));
}

#[test]
fn creation_fails_with_the_error_code_on_a_null_handle() {
    assert_eq!(created(Handle(0), 1407), Err(1407));
    assert_eq!(created(Handle(0x20), 1407), Ok(Handle(0x20)));
    assert!(Handle::null().is_null());
    assert!(!Handle(1).is_null());
}

#[test]
fn style_sets_hold_named_styles_only() {
    assert_eq!(WindowStyle::empty().bits(), 0);
    assert_eq!(WindowStyle::all().bits(), 0x0002_7aeb);
    assert_eq!(WindowStyle::from_bits(0x0002_0003).map(|s| s.bits()), Some(0x0002_0003));
    assert_eq!(WindowStyle::from_bits(0x0004), None);
    assert_eq!(WindowStyle::from_bits(0x0001_0000), None);
    assert_eq!(WindowStyle::from_bits(0), Some(WindowStyle::empty()));
    assert_eq!(WindowStyle::from_bits_truncate(0xffff_ffff), WindowStyle::all());
    assert_eq!(WindowStyle::from_bits_truncate(0x0007).bits(), 0x0003);
}

#[test]
fn style_sets_join_and_compare() {
    let h = WindowStyle::from_bits_truncate(0x0002);
    let v = WindowStyle::from_bits_truncate(0x0001);
    let both = h.union(v);
    assert_eq!(both.bits(), 0x0003);
    assert!(both.contains(h));
    assert!(both.contains(v));
    assert!(!h.contains(v));
    assert!(!h.contains(both));
    assert!(h.contains(WindowStyle::empty()));
    assert!(WindowStyle::all().contains(both));
}
