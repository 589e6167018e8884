use vstd::prelude::*;

use crate::colors::{Color, NamedColor};
use crate::ml::{
    DrawText, Handle, PaintContext, Paintable, WindowStyle, CS_DROPSHADOW, CS_HREDRAW, CS_VREDRAW,
};
use std::marker::PhantomData;

verus! {

/// The places in `controls`, in rising order, of the first `n` controls that
/// the paint cycle `c` concerns.
pub open spec fn concerned_upto<P: Paintable>(controls: Seq<P>, c: PaintContext, n: int) -> Seq<
    usize,
>
    decreases n,
{
    if n <= 0 {
        Seq::empty()
    } else if controls[n - 1].spec_needs_repaint(c) {
        concerned_upto(controls, c, n - 1).push((n - 1) as usize)
    } else {
        concerned_upto(controls, c, n - 1)
    }
}

/// What the controls at the first `k` places of `order` draw, one control
/// after the other.
pub open spec fn drawn_upto<P: Paintable>(
    controls: Seq<P>,
    c: PaintContext,
    order: Seq<usize>,
    k: int,
) -> Seq<DrawText>
    decreases k,
{
    if k <= 0 {
        Seq::empty()
    } else {
        drawn_upto(controls, c, order, k - 1) + controls[order[k - 1] as int].spec_paint(c)
    }
}

/// The identifier that follows `id`.
pub open spec fn spec_id_after(id: i32) -> i32 {
    if id == i32::MAX {
        i32::MIN
    } else {
        (id + 1) as i32
    }
}

/// The state of one window while it runs: its handle, the controls that it
/// owns in the order in which they were added, and a counter for fresh
/// identifiers.
pub struct WindowCore<P: Paintable> {
    handle: Handle,
    controls: Vec<P>,
    next_id: i32,
}

impl<P: Paintable> WindowCore<P> {
    pub closed spec fn spec_handle(self) -> Handle {
        self.handle
    }

    /// The controls of the window, first added first.
    pub closed spec fn spec_controls(self) -> Seq<P> {
        self.controls@
    }

    /// The identifier that `get_unique_id` hands out next.
    pub closed spec fn spec_next_id(self) -> i32 {
        self.next_id
    }

    /// The places of the controls that the paint cycle `c` concerns, in
    /// rising order.
    pub open spec fn spec_repaint_order(self, c: PaintContext) -> Seq<usize> {
        concerned_upto(self.spec_controls(), c, self.spec_controls().len() as int)
    }

    /// A window without controls, which has handed out no identifier yet.
    pub fn from_handle(handle: Handle) -> (core: Self)
        ensures
            core.spec_handle() == handle,
            core.spec_controls() == Seq::<P>::empty(),
            core.spec_next_id() == 0,
    {
        WindowCore { handle, controls: Vec::new(), next_id: 0 }
    }

    /// Adds `control` behind the controls that the window already has.
    pub fn add_control(&mut self, control: P)
        ensures
            final(self).spec_controls() == old(self).spec_controls().push(control),
            final(self).spec_handle() == old(self).spec_handle(),
            final(self).spec_next_id() == old(self).spec_next_id(),
    {
        self.controls.push(control);
    }

    /// The handle of the window.
    pub fn handle(&self) -> (h: Handle)
        ensures
            h == self.spec_handle(),
    {
        self.handle
    }

    /// How many controls the window owns.
    pub fn control_count(&self) -> (n: usize)
        ensures
            n == self.spec_controls().len(),
    {
        self.controls.len()
    }

    /// A fresh identifier. They count up from zero; behind `i32::MAX` the
    /// count goes on at `i32::MIN`, so the first 2^32 of them are distinct.
    pub fn get_unique_id(&mut self) -> (id: i32)
        ensures
            id == old(self).spec_next_id(),
            final(self).spec_next_id() == spec_id_after(id),
            final(self).spec_controls() == old(self).spec_controls(),
            final(self).spec_handle() == old(self).spec_handle(),
    {
        let id: i32 = self.next_id;
        self.next_id = if id == i32::MAX {
            i32::MIN
        } else {
            id + 1
        };
        id
    }

    /// The places of the controls to draw in the paint cycle `c`: every
    /// control that the cycle concerns, once, in the order in which the
    /// controls were added.
    pub fn repaint_order(&self, c: &PaintContext) -> (order: Vec<usize>)
        ensures
            order@ == self.spec_repaint_order(*c),
            forall|j: int|
                0 <= j < order@.len() ==> (#[trigger] order@[j]) < self.spec_controls().len()
                    && self.spec_controls()[order@[j] as int].spec_needs_repaint(*c),
            forall|i: int|
                0 <= i < self.spec_controls().len() && (#[trigger] self.spec_controls()[i])
                    .spec_needs_repaint(*c) ==> order@.contains(i as usize),
            forall|j: int, k: int|
                0 <= j < k < order@.len() ==> (#[trigger] order@[j]) < (#[trigger] order@[k]),
    {
        let n: usize = self.controls.len();
        proof {
            lemma_concerned_exactly(self.controls@, *c, n as int);
        }
        let mut order: Vec<usize> = Vec::new();
        let mut i: usize = 0;
        while i < self.controls.len()
            invariant
                i <= self.controls.len(),
                order@ == concerned_upto(self.controls@, *c, i as int),
            decreases self.controls.len() - i,
        {
            if self.controls[i].needs_repaint(c) {
                order.push(i);
            }
            i = i + 1;
        }
        order
    }
}

impl<P: Paintable> Paintable for WindowCore<P> {
    /// The drawings of the controls that the cycle concerns, in the order in
    /// which the controls were added, so that a later control draws over an
    /// earlier one.
    open spec fn spec_paint(&self, c: PaintContext) -> Seq<DrawText> {
        drawn_upto(
            self.spec_controls(),
            c,
            self.spec_repaint_order(c),
            self.spec_repaint_order(c).len() as int,
        )
    }

    open spec fn spec_needs_repaint(&self, c: PaintContext) -> bool {
        true
    }

    fn paint(&self, c: &PaintContext) -> (r: Vec<DrawText>) {
        let order = self.repaint_order(c);
        let n: usize = self.controls.len();
        proof {
            lemma_concerned_exactly(self.controls@, *c, n as int);
        }
        let mut list: Vec<DrawText> = Vec::new();
        let mut k: usize = 0;
        while k < order.len()
            invariant
                k <= order.len(),
                order@ == self.spec_repaint_order(*c),
                forall|j: int|
                    0 <= j < order@.len() ==> 0 <= #[trigger] order@[j] < self.controls@.len(),
                list@ == drawn_upto(self.controls@, *c, order@, k as int),
            decreases order.len() - k,
        {
            let mut piece = self.controls[order[k]].paint(c);
            list.append(&mut piece);
            k = k + 1;
        }
        list
    }

    fn needs_repaint(&self, c: &PaintContext) -> (r: bool) {
        true
    }
}

/// Of the first `n` controls, exactly those that the paint cycle concerns
/// are in the order of drawing, each of them once, and an earlier control
/// stands before a later one.
pub proof fn lemma_concerned_exactly<P: Paintable>(controls: Seq<P>, c: PaintContext, n: int)
    requires
        0 <= n <= controls.len(),
        controls.len() <= usize::MAX,
    ensures
        forall|j: int|
            0 <= j < concerned_upto(controls, c, n).len() ==> 0 <= (#[trigger] concerned_upto(
                controls,
                c,
                n,
            )[j]) < n,
        forall|j: int|
            0 <= j < concerned_upto(controls, c, n).len() ==> controls[(#[trigger] concerned_upto(
                controls,
                c,
                n,
            )[j]) as int].spec_needs_repaint(c),
        forall|i: int|
            0 <= i < n && (#[trigger] controls[i]).spec_needs_repaint(c) ==> concerned_upto(
                controls,
                c,
                n,
            ).contains(i as usize),
        forall|j: int, k: int|
            0 <= j < k < concerned_upto(controls, c, n).len() ==> (#[trigger] concerned_upto(
                controls,
                c,
                n,
            )[j]) < (#[trigger] concerned_upto(controls, c, n)[k]),
    decreases n,
{
    if n > 0 {
        lemma_concerned_exactly(controls, c, n - 1);
        let before = concerned_upto(controls, c, n - 1);
        let now = concerned_upto(controls, c, n);
        if controls[n - 1].spec_needs_repaint(c) {
            assert(now == before.push((n - 1) as usize));
            assert(now[before.len() as int] == (n - 1) as usize);
            assert forall|i: int|
                0 <= i < n && (#[trigger] controls[i]).spec_needs_repaint(c) implies now.contains(
                i as usize,
            ) by {
                if i < n - 1 {
                    let j = choose|j: int| 0 <= j < before.len() && before[j] == i as usize;
                    assert(now[j] == i as usize);
                }
            }
        } else {
            assert(now == before);
        }
    }
}

/// Extended window style: a border with a sunken edge.
pub const WS_EX_CLIENTEDGE: u32 = 0x0000_0200;

/// Window style: an overlapped window with a title bar, a sizing border, a
/// window menu and the two buttons to minimise and maximise it.
pub const WS_OVERLAPPEDWINDOW: u32 = 0x00cf_0000;

/// The same style as `WS_OVERLAPPEDWINDOW`.
pub const WS_TILEDWINDOW: u32 = 0x00cf_0000;

/// As a position or a size: the system chooses.
pub const CW_USEDEFAULT: i32 = -0x8000_0000;

/// The stock icon of an application.
pub const IDI_APPLICATION: u16 = 32512;

/// The stock arrow cursor.
pub const IDC_ARROW: u16 = 32512;

/// What the windows of one class have in common: the name of the class and
/// what a window of it starts with.
pub trait WindowClass: Sized {
    /// The name under which the class is registered.
    fn class_name() -> &'static str;

    /// The title of a window of the class, until another one is set.
    fn default_title() -> &'static str;

    /// The extended style of a window of the class: a sunken edge.
    fn default_extended_style() -> (style: u32)
        default_ensures
            style == WS_EX_CLIENTEDGE,
    {
        WS_EX_CLIENTEDGE
    }

    /// The style of a window of the class: an overlapped window.
    fn default_style() -> (style: u32)
        default_ensures
            style == WS_TILEDWINDOW,
    {
        WS_TILEDWINDOW
    }

    /// Redraw on a change of width or height, under a drop shadow.
    fn default_class_style() -> (style: u32)
        default_ensures
            style == CS_DROPSHADOW | CS_HREDRAW | CS_VREDRAW,
            style == 0x0002_0003,
    {
        proof {
            assert(0x0002_0000u32 | 0x0002u32 | 0x0001u32 == 0x0002_0003u32) by (bit_vector);
        }
        CS_DROPSHADOW | CS_HREDRAW | CS_VREDRAW
    }

    /// The stock icon to load for the class.
    fn default_icon() -> (id: u16)
        default_ensures
            id == IDI_APPLICATION,
    {
        IDI_APPLICATION
    }

    /// The stock icon to load as the small icon of the class.
    fn default_icon_small() -> (id: u16)
        default_ensures
            id == IDI_APPLICATION,
    {
        IDI_APPLICATION
    }

    /// The name of the menu of the class; the empty name stands for no menu.
    fn default_menu_name() -> (name: &'static str)
        default_ensures
            name@ == Seq::<char>::empty(),
    {
        let name = "";
        proof {
            reveal_strlit("");
        }
        assert(name@.len() == 0);
        name
    }

    /// The colour of the solid brush that fills the background.
    fn default_background_brush() -> (color: Color)
        default_ensures
            color == NamedColor::White.spec_color(),
    {
        NamedColor::White.color()
    }

    /// The stock cursor to load for the class.
    fn default_cursor() -> (id: u16)
        default_ensures
            id == IDC_ARROW,
    {
        IDC_ARROW
    }

    /// A fresh instance for a window of the class that is about to be made.
    fn new() -> Self;
}

/// What a program decides about one window: what happens when it has been
/// made, and what it draws.
pub trait Window: Paintable {
    /// What the window holds as a control.
    type Control: Paintable;

    /// Tells the instance which handle the system gave to its window.
    fn init_handle(&mut self, handle: Handle);

    /// Runs once, when the window has been made and before any other message
    /// reaches it.
    fn on_create(&mut self) {
    }

    /// A name for the window in messages to the developer.
    fn get_debug_name(&self) -> (name: String)
        default_ensures
            name@ == "Window Base"@,
    {
        "Window Base".to_owned()
    }

    /// A fresh identifier from the counter of the window: the one that the
    /// running state of the window hands out next. The counter moves on by
    /// one; the handle and the controls of the window stay.
    fn get_unique_id(&mut self) -> (id: i32)
        ensures
            old(self).spec_core() matches Some(before) ==> id == before.spec_next_id(),
            old(self).spec_core() matches Some(before) ==> (final(self).spec_core() matches Some(
                after,
            ) ==> {
                &&& after.spec_next_id() == spec_id_after(id)
                &&& after.spec_controls() == before.spec_controls()
                &&& after.spec_handle() == before.spec_handle()
            }),
    {
        self.get_core_mut().get_unique_id()
    }

    /// The running state of the window, where the implementation says which
    /// it is. `None` leaves it open: then nothing is known of what `get_core`
    /// and `get_core_mut` hand out.
    open spec fn spec_core(&self) -> Option<WindowCore<Self::Control>> {
        None
    }

    /// The running state of the window.
    fn get_core(&self) -> (core: &WindowCore<Self::Control>)
        ensures
            self.spec_core() matches Some(state) ==> *core == state,
    ;

    /// The running state of the window, to change it. What the caller leaves
    /// behind the reference is the running state afterwards.
    fn get_core_mut(&mut self) -> (core: &mut WindowCore<Self::Control>)
        ensures
            old(self).spec_core() matches Some(state) ==> *core == state,
            final(self).spec_core() matches Some(state) ==> *final(core) == state,
    ;
}

/// The description of a window class, as the system takes it to register
/// the class.
#[derive(Clone, Debug, PartialEq, Eq)]
pub struct ClassRequest {
    pub style: u32,
    pub class_extra: i32,
    pub window_extra: i32,
    pub instance: Handle,
    pub icon: Handle,
    pub cursor: Handle,
    pub background_brush: Handle,
    /// The menu of the class; `None` where the class has no menu.
    pub menu_name: Option<String>,
    pub class_name: String,
    pub icon_small: Handle,
}

/// The outcome of registering a class: the system answers with an atom, or
/// with zero and an error code.
pub fn registered(atom: u16, last_error: u32) -> (r: Result<(), u32>)
    ensures
        atom == 0 ==> r == Err::<(), u32>(last_error),
        atom != 0 ==> r == Ok::<(), u32>(()),
{
    if atom == 0 {
        Err(last_error)
    } else {
        Ok(())
    }
}

/// Collects what the windows of the class `T` have in common, to register
/// the class.
pub struct WindowClassBuilder<T: WindowClass> {
    pub class_name: String,
    pub style: u32,
    pub class_extra: i32,
    pub window_extra: i32,
    pub icon: Handle,
    pub icon_small: Handle,
    pub cursor: Handle,
    pub background_brush: Handle,
    pub menu_name: String,
    pub class: PhantomData<T>,
}

impl<T: WindowClass> WindowClassBuilder<T> {
    /// The description to register with the module `instance`. An empty menu
    /// name stands for a class without a menu.
    pub open spec fn spec_register(self, instance: Handle) -> ClassRequest {
        ClassRequest {
            style: self.style,
            class_extra: self.class_extra,
            window_extra: self.window_extra,
            instance,
            icon: self.icon,
            cursor: self.cursor,
            background_brush: self.background_brush,
            menu_name: if self.menu_name@.len() == 0 {
                None
            } else {
                Some(self.menu_name)
            },
            class_name: self.class_name,
            icon_small: self.icon_small,
        }
    }

    /// A builder with the name, the style and the menu that `T` gives for its
    /// class, no extra bytes, and no icon, cursor or brush yet.
    pub fn new() -> (b: Self)
        ensures
            exists|name: &'static str|
                call_ensures(T::class_name, (), name) && b.class_name@ == name@,
            call_ensures(T::default_class_style, (), b.style),
            exists|name: &'static str|
                call_ensures(T::default_menu_name, (), name) && b.menu_name@ == name@,
            b.class_extra == 0,
            b.window_extra == 0,
            b.icon == Handle(0),
            b.icon_small == Handle(0),
            b.cursor == Handle(0),
            b.background_brush == Handle(0),
    {
        WindowClassBuilder {
            class_name: T::class_name().to_owned(),
            style: T::default_class_style(),
            class_extra: 0,
            window_extra: 0,
            icon: Handle::null(),
            icon_small: Handle::null(),
            cursor: Handle::null(),
            background_brush: Handle::null(),
            menu_name: T::default_menu_name().to_owned(),
            class: PhantomData,
        }
    }

    /// Sets the class styles to the flags of `style`.
    pub fn set_style(self, style: WindowStyle) -> (r: Self)
        ensures
            r == (WindowClassBuilder { style: style.spec_bits(), ..self }),
    {
        let mut b = self;
        b.style = style.bits();
        b
    }

    /// Sets the number of extra bytes behind the class structure.
    pub fn set_class_extra(self, class_extra: i32) -> (r: Self)
        ensures
            r == (WindowClassBuilder { class_extra, ..self }),
    {
        let mut b = self;
        b.class_extra = class_extra;
        b
    }

    /// Sets the number of extra bytes behind each window of the class.
    pub fn set_window_extra(self, window_extra: i32) -> (r: Self)
        ensures
            r == (WindowClassBuilder { window_extra, ..self }),
    {
        let mut b = self;
        b.window_extra = window_extra;
        b
    }

    /// Sets the icon of the class.
    pub fn set_icon(self, icon: Handle) -> (r: Self)
        ensures
            r == (WindowClassBuilder { icon, ..self }),
    {
        let mut b = self;
        b.icon = icon;
        b
    }

    /// Sets the cursor of the class.
    pub fn set_cursor(self, cursor: Handle) -> (r: Self)
        ensures
            r == (WindowClassBuilder { cursor, ..self }),
    {
        let mut b = self;
        b.cursor = cursor;
        b
    }

    /// Sets the brush that fills the background.
    pub fn set_background_brush(self, background_brush: Handle) -> (r: Self)
        ensures
            r == (WindowClassBuilder { background_brush, ..self }),
    {
        let mut b = self;
        b.background_brush = background_brush;
        b
    }

    /// Sets the name of the menu of the class; the empty name stands for no menu.
    pub fn set_menu_name(self, menu_name: String) -> (r: Self)
        ensures
            r == (WindowClassBuilder { menu_name, ..self }),
    {
        let mut b = self;
        b.menu_name = menu_name;
        b
    }

    /// Sets the name of the class.
    pub fn set_class_name(self, class_name: String) -> (r: Self)
        ensures
            r == (WindowClassBuilder { class_name, ..self }),
    {
        let mut b = self;
        b.class_name = class_name;
        b
    }

    /// Sets the small icon of the class.
    pub fn set_icon_small(self, icon_small: Handle) -> (r: Self)
        ensures
            r == (WindowClassBuilder { icon_small, ..self }),
    {
        let mut b = self;
        b.icon_small = icon_small;
        b
    }

    /// The description to hand to the system, for the module `instance`.
    pub fn register(self, instance: Handle) -> (r: ClassRequest)
        ensures
            r == self.spec_register(instance),
    {
        let no_menu = self.menu_name.as_str().is_empty();
        ClassRequest {
            style: self.style,
            class_extra: self.class_extra,
            window_extra: self.window_extra,
            instance,
            icon: self.icon,
            cursor: self.cursor,
            background_brush: self.background_brush,
            menu_name: if no_menu {
                None
            } else {
                Some(self.menu_name)
            },
            class_name: self.class_name,
            icon_small: self.icon_small,
        }
    }
}

/// What the system takes to make one window.
#[derive(Clone, Debug, PartialEq, Eq)]
pub struct WindowRequest {
    pub ex_style: u32,
    pub class_name: String,
    pub window_name: String,
    pub style: u32,
    pub pos_x: i32,
    pub pos_y: i32,
    pub width: i32,
    pub height: i32,
    pub parent: Handle,
    pub menu: Handle,
    pub hinstance: Handle,
}

/// Collects what one window of the class `T` is made with.
pub struct WindowBuilder<T: Window + WindowClass> {
    pub ex_style: u32,
    pub class_name: String,
    pub window_name: String,
    pub style: u32,
    pub pos_x: i32,
    pub pos_y: i32,
    pub width: i32,
    pub height: i32,
    pub parent: Handle,
    pub menu: Handle,
    pub hinstance: Handle,
    pub lp_param: usize,
    pub class: PhantomData<T>,
}

impl<T: Window + WindowClass> WindowBuilder<T> {
    /// What the builder asks of the system. The creation parameter is not
    /// part of it: the system is handed the instance of the window there.
    pub open spec fn spec_build(self) -> WindowRequest {
        WindowRequest {
            ex_style: self.ex_style,
            class_name: self.class_name,
            window_name: self.window_name,
            style: self.style,
            pos_x: self.pos_x,
            pos_y: self.pos_y,
            width: self.width,
            height: self.height,
            parent: self.parent,
            menu: self.menu,
            hinstance: self.hinstance,
        }
    }

    /// A builder for a window of the module `instance`, with the class name,
    /// the title and the styles that `T` gives, a place and a size that the
    /// system chooses, and neither parent nor menu.
    pub fn new(instance: Handle) -> (b: Self)
        ensures
            call_ensures(T::default_extended_style, (), b.ex_style),
            exists|name: &'static str|
                call_ensures(T::class_name, (), name) && b.class_name@ == name@,
            exists|name: &'static str|
                call_ensures(T::default_title, (), name) && b.window_name@ == name@,
            call_ensures(T::default_style, (), b.style),
            b.pos_x == CW_USEDEFAULT,
            b.pos_y == CW_USEDEFAULT,
            b.width == CW_USEDEFAULT,
            b.height == CW_USEDEFAULT,
            b.parent == Handle(0),
            b.menu == Handle(0),
            b.hinstance == instance,
            b.lp_param == 0,
    {
        WindowBuilder {
            ex_style: T::default_extended_style(),
            class_name: T::class_name().to_owned(),
            window_name: T::default_title().to_owned(),
            style: T::default_style(),
            pos_x: CW_USEDEFAULT,
            pos_y: CW_USEDEFAULT,
            width: CW_USEDEFAULT,
            height: CW_USEDEFAULT,
            parent: Handle::null(),
            menu: Handle::null(),
            hinstance: instance,
            lp_param: 0,
            class: PhantomData,
        }
    }

    /// The request to hand to the system.
    pub fn build(self) -> (r: WindowRequest)
        ensures
            r == self.spec_build(),
    {
        WindowRequest {
            ex_style: self.ex_style,
            class_name: self.class_name,
            window_name: self.window_name,
            style: self.style,
            pos_x: self.pos_x,
            pos_y: self.pos_y,
            width: self.width,
            height: self.height,
            parent: self.parent,
            menu: self.menu,
            hinstance: self.hinstance,
        }
    }

    /// Sets the text of the title bar.
    pub fn set_title(self, name: String) -> (r: Self)
        ensures
            r == (WindowBuilder { window_name: name, ..self }),
    {
        let mut b = self;
        b.window_name = name;
        b
    }

    /// Sets the place of the upper left corner.
    pub fn set_position(self, x: i32, y: i32) -> (r: Self)
        ensures
            r == (WindowBuilder { pos_x: x, pos_y: y, ..self }),
    {
        let mut b = self;
        b.pos_x = x;
        b.pos_y = y;
        b
    }

    /// Sets the width of the window.
    pub fn set_width(self, width: i32) -> (r: Self)
        ensures
            r == (WindowBuilder { width, ..self }),
    {
        let mut b = self;
        b.width = width;
        b
    }

    /// Sets the height of the window.
    pub fn set_height(self, height: i32) -> (r: Self)
        ensures
            r == (WindowBuilder { height, ..self }),
    {
        let mut b = self;
        b.height = height;
        b
    }

    /// Sets the window that owns the new one.
    pub fn set_parent(self, parent: Handle) -> (r: Self)
        ensures
            r == (WindowBuilder { parent, ..self }),
    {
        let mut b = self;
        b.parent = parent;
        b
    }

    /// Sets the menu of the window.
    pub fn set_menu(self, menu: Handle) -> (r: Self)
        ensures
            r == (WindowBuilder { menu, ..self }),
    {
        let mut b = self;
        b.menu = menu;
        b
    }

    /// Sets a value of the program's own to keep with the builder.
    pub fn set_lp_param(self, lp_param: usize) -> (r: Self)
        ensures
            r == (WindowBuilder { lp_param, ..self }),
    {
        let mut b = self;
        b.lp_param = lp_param;
        b
    }
}

} // verus!
