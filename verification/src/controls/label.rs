use vstd::prelude::*;

use crate::colors::{Color, NamedColor};
use crate::controls::{Control, Notification};
use crate::font::FontBuilder;
use crate::geometry::Rect;
use crate::ml::{DrawText, PaintContext, Paintable, DT_NOCLIP, TRANSPARENT};

verus! {

/// The device coordinate nearest to `v`: device coordinates end at
/// `i32::MAX`, and a larger value stands at that edge.
pub open spec fn spec_coordinate(v: int) -> i32 {
    if v > i32::MAX {
        i32::MAX
    } else {
        v as i32
    }
}

/// The device coordinate of `offset + extent`.
fn coordinate(offset: usize, extent: usize) -> (r: i32)
    ensures
        r == spec_coordinate(offset + extent),
{
    let edge: usize = 0x7fff_ffff;
    if offset > edge || extent > edge - offset {
        i32::MAX
    } else {
        (offset + extent) as i32
    }
}

/// A line of text at a fixed place in a window.
pub struct Label {
    pub pos_x: usize,
    pub pos_y: usize,
    pub width: usize,
    pub height: usize,
    pub font_builder: FontBuilder,
    pub text: String,
    pub foreground_color: Color,
}

impl Label {
    /// The bounding box of the label in device coordinates, from its
    /// position to its position plus its size.
    pub open spec fn spec_bounds(self) -> Rect {
        Rect {
            left: spec_coordinate(self.pos_x as int),
            top: spec_coordinate(self.pos_y as int),
            right: spec_coordinate(self.pos_x + self.width),
            bottom: spec_coordinate(self.pos_y + self.height),
        }
    }

    /// The one piece of text that the label draws.
    pub open spec fn spec_draw(self) -> DrawText {
        DrawText {
            font: self.font_builder.spec_build(),
            color: self.foreground_color.spec_to_int(),
            background_mode: TRANSPARENT,
            text: self.text,
            rect: self.spec_bounds(),
            format: DT_NOCLIP,
        }
    }

    /// An empty black label of no size at the origin, in the default font.
    pub fn new() -> (l: Label)
        ensures
            l.pos_x == 0,
            l.pos_y == 0,
            l.width == 0,
            l.height == 0,
            l.font_builder.is_default(),
            l.text@ == Seq::<char>::empty(),
            l.foreground_color == NamedColor::Black.spec_color(),
    {
        Label {
            pos_x: 0,
            pos_y: 0,
            width: 0,
            height: 0,
            font_builder: FontBuilder::new(),
            text: String::new(),
            foreground_color: NamedColor::Black.color(),
        }
    }

    /// Moves the upper left corner of the label to `(x, y)`.
    pub fn set_position(&mut self, x: usize, y: usize)
        ensures
            *final(self) == (Label { pos_x: x, pos_y: y, ..*old(self) }),
    {
        self.pos_x = x;
        self.pos_y = y;
    }

    /// The bounding box of the label in device coordinates.
    pub fn bounds(&self) -> (r: Rect)
        ensures
            r == self.spec_bounds(),
            r.wf(),
    {
        Rect {
            left: coordinate(self.pos_x, 0),
            top: coordinate(self.pos_y, 0),
            right: coordinate(self.pos_x, self.width),
            bottom: coordinate(self.pos_y, self.height),
        }
    }
}

impl Paintable for Label {
    open spec fn spec_paint(&self, c: PaintContext) -> Seq<DrawText> {
        seq![self.spec_draw()]
    }

    /// The label is concerned when its bounding box and the dirty region
    /// share a point.
    open spec fn spec_needs_repaint(&self, c: PaintContext) -> bool {
        self.spec_bounds().spec_intersects(c.spec_dirty())
    }

    fn paint(&self, c: &PaintContext) -> (r: Vec<DrawText>) {
        let mut list: Vec<DrawText> = Vec::new();
        list.push(
            DrawText {
                font: self.font_builder.build(),
                color: self.foreground_color.to_int(),
                background_mode: TRANSPARENT,
                text: self.text.clone(),
                rect: self.bounds(),
                format: DT_NOCLIP,
            },
        );
        list
    }

    fn needs_repaint(&self, c: &PaintContext) -> (r: bool) {
        let dirty = c.dirty();
        self.bounds().intersects(&dirty)
    }
}

impl Control for Label {
    /// A label has no children, so nothing notifies it: it stays as it is.
    fn handle_notify(&mut self, info: &Notification)
        ensures
            *final(self) == *old(self),
    {
    }
}

} // verus!
