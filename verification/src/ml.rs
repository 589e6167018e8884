use vstd::prelude::*;

use crate::font::FontRequest;
use crate::geometry::Rect;

verus! {

/// A value that the system issued for a window, a device context, a font or
/// another resource. Zero stands for "no resource".
#[derive(Clone, Copy, Debug, PartialEq, Eq, Structural)]
pub struct Handle(pub usize);

impl Handle {
    pub open spec fn spec_is_null(self) -> bool {
        self.0 == 0
    }

    /// The handle that names no resource.
    pub fn null() -> (h: Handle)
        ensures
            h == Handle(0),
    {
        Handle(0)
    }

    /// Whether the handle names no resource.
    pub fn is_null(&self) -> (r: bool)
        ensures
            r == self.spec_is_null(),
    {
        self.0 == 0
    }
}

/// The outcome of a call that creates a resource: the handle it returned, or,
/// where that handle is null, the error code that the system recorded.
pub fn created(handle: Handle, last_error: u32) -> (r: Result<Handle, u32>)
    ensures
        handle.spec_is_null() ==> r == Err::<Handle, u32>(last_error),
        !handle.spec_is_null() ==> r == Ok::<Handle, u32>(handle),
{
    if handle.is_null() {
        Err(last_error)
    } else {
        Ok(handle)
    }
}

/// A drawing surface that was acquired for a window outside a paint cycle.
#[derive(Clone, Copy, Debug, PartialEq, Eq, Structural)]
pub struct DeviceContext {
    pub window: Handle,
    pub context: Handle,
}

impl DeviceContext {
    /// The session for `hwnd` over the surface `context` that the system
    /// handed out for it.
    pub fn from_hwnd(hwnd: Handle, context: Handle) -> (dc: DeviceContext)
        ensures
            dc == (DeviceContext { window: hwnd, context }),
    {
        DeviceContext { window: hwnd, context }
    }

    /// The surface to draw on.
    pub fn surface(&self) -> (h: Handle)
        ensures
            h == self.context,
    {
        self.context
    }
}

/// What the system reports at the start of a paint cycle.
#[derive(Clone, Copy, Debug, PartialEq, Eq, Structural)]
pub struct PaintStruct {
    /// Whether the background has to be erased.
    pub erase: bool,
    /// The region that needs to be drawn again.
    pub rc_paint: Rect,
}

/// One paint cycle of a window: the surface to draw on and the dirty region.
#[derive(Clone, Copy, Debug, PartialEq, Eq, Structural)]
pub struct PaintContext {
    pub window: Handle,
    pub context: Handle,
    pub paintstruct: PaintStruct,
}

impl PaintContext {
    pub open spec fn spec_dirty(self) -> Rect {
        self.paintstruct.rc_paint
    }

    /// The paint cycle of `handle` over the surface `context`, with the
    /// report that the system filled in when the cycle began.
    pub fn begin_paint(handle: Handle, context: Handle, paintstruct: PaintStruct) -> (pc:
        PaintContext)
        ensures
            pc == (PaintContext { window: handle, context, paintstruct }),
    {
        PaintContext { window: handle, context, paintstruct }
    }

    /// The surface to draw on.
    pub fn surface(&self) -> (h: Handle)
        ensures
            h == self.context,
    {
        self.context
    }

    /// The region that needs to be drawn again.
    pub fn dirty(&self) -> (r: Rect)
        ensures
            r == self.spec_dirty(),
    {
        self.paintstruct.rc_paint
    }
}

/// Background mix mode that leaves the background untouched.
pub const TRANSPARENT: i32 = 1;

/// Background mix mode that fills the background before drawing.
pub const OPAQUE: i32 = 2;

/// Text format flag: draw without clipping to the rectangle.
pub const DT_NOCLIP: u32 = 0x0000_0100;

/// One piece of text to draw: the font to select, the colour and background
/// mode to set, the text and the rectangle to format it in.
#[derive(Clone, Debug, PartialEq, Eq)]
pub struct DrawText {
    pub font: FontRequest,
    pub color: u32,
    pub background_mode: i32,
    pub text: String,
    pub rect: Rect,
    pub format: u32,
}

pub const CS_VREDRAW: u32 = 0x0001;
pub const CS_HREDRAW: u32 = 0x0002;
pub const CS_DBLCLKS: u32 = 0x0008;
pub const CS_OWNDC: u32 = 0x0020;
pub const CS_CLASSDC: u32 = 0x0040;
pub const CS_PARENTDC: u32 = 0x0080;
pub const CS_NOCLOSE: u32 = 0x0200;
pub const CS_SAVEBITS: u32 = 0x0800;
pub const CS_BYTEALIGNCLIENT: u32 = 0x1000;
pub const CS_BYTEALIGNWINDOW: u32 = 0x2000;
pub const CS_GLOBALCLASS: u32 = 0x4000;
pub const CS_DROPSHADOW: u32 = 0x0002_0000;

/// Every class style that has a name.
pub const CS_ALL: u32 = 0x0002_7aeb;

/// A set of class styles.
#[derive(Clone, Copy, Debug, PartialEq, Eq, Structural)]
pub struct WindowStyle {
    bits: u32,
}

impl WindowStyle {
    /// The flags of the set, one bit for each style.
    pub closed spec fn spec_bits(self) -> u32 {
        self.bits
    }

    /// Only named styles are in a set.
    pub open spec fn wf(self) -> bool {
        self.spec_bits() & !CS_ALL == 0
    }

    /// The set without any style.
    pub fn empty() -> (s: WindowStyle)
        ensures
            s.spec_bits() == 0,
            s.wf(),
    {
        assert(0u32 & !0x0002_7aebu32 == 0) by (bit_vector);
        WindowStyle { bits: 0 }
    }

    /// The set of all named styles.
    pub fn all() -> (s: WindowStyle)
        ensures
            s.spec_bits() == CS_ALL,
            s.wf(),
    {
        assert(0x0002_7aebu32 & !0x0002_7aebu32 == 0) by (bit_vector);
        WindowStyle { bits: CS_ALL }
    }

    /// The flags of the set, as the system takes them.
    pub fn bits(&self) -> (b: u32)
        ensures
            b == self.spec_bits(),
    {
        self.bits
    }

    /// The set with the flags `bits`, unless a bit of it names no style.
    pub fn from_bits(bits: u32) -> (s: Option<WindowStyle>)
        ensures
            bits & !CS_ALL == 0 ==> s is Some && s->Some_0.spec_bits() == bits && s->Some_0.wf(),
            bits & !CS_ALL != 0 ==> s is None,
    {
        if bits & !CS_ALL == 0 {
            Some(WindowStyle { bits })
        } else {
            None
        }
    }

    /// The set of the named styles among the flags `bits`.
    pub fn from_bits_truncate(bits: u32) -> (s: WindowStyle)
        ensures
            s.spec_bits() == bits & CS_ALL,
            s.wf(),
    {
        assert((bits & 0x0002_7aebu32) & !0x0002_7aebu32 == 0) by (bit_vector);
        WindowStyle { bits: bits & CS_ALL }
    }

    /// Whether every style of `other` is in this set.
    pub fn contains(&self, other: WindowStyle) -> (r: bool)
        ensures
            r == (self.spec_bits() & other.spec_bits() == other.spec_bits()),
    {
        self.bits & other.bits == other.bits
    }

    /// The styles that are in this set or in `other`.
    pub fn union(self, other: WindowStyle) -> (s: WindowStyle)
        ensures
            s.spec_bits() == self.spec_bits() | other.spec_bits(),
            self.wf() && other.wf() ==> s.wf(),
    {
        let a: u32 = self.bits;
        let b: u32 = other.bits;
        assert(a & !0x0002_7aebu32 == 0 && b & !0x0002_7aebu32 == 0 ==> (a | b) & !0x0002_7aebu32
            == 0) by (bit_vector);
        WindowStyle { bits: a | b }
    }
}

/// Anything that can draw itself in a paint cycle.
///
/// An implementation says in `spec_paint` what it draws and in
/// `spec_needs_repaint` when it has to; `paint` and `needs_repaint` compute
/// what the two say. Left as they are, the two describe an item that is
/// concerned by every paint cycle and draws nothing.
pub trait Paintable {
    /// What `paint` draws in the paint cycle `c`, first to last.
    open spec fn spec_paint(&self, c: PaintContext) -> Seq<DrawText> {
        Seq::empty()
    }

    /// Whether the paint cycle `c` concerns this item. An item that does not
    /// look at the dirty region is concerned by every cycle.
    open spec fn spec_needs_repaint(&self, c: PaintContext) -> bool {
        true
    }

    /// The drawing of this item, whatever the dirty region is.
    fn paint(&self, c: &PaintContext) -> (r: Vec<DrawText>)
        ensures
            r@ == self.spec_paint(*c),
    ;

    /// Whether this item has to be drawn in the paint cycle `c`.
    fn needs_repaint(&self, c: &PaintContext) -> (r: bool)
        ensures
            r == self.spec_needs_repaint(*c),
    ;
}

} // verus!
