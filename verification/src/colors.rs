use vstd::prelude::*;

verus! {

/// An ARGB colour: alpha, red, green and blue, one byte each.
#[derive(Debug, Copy, Clone, PartialEq, Eq, Structural)]
pub struct Color(pub u8, pub u8, pub u8, pub u8);

/// The 32-bit word that holds the four channels of a colour, alpha in the
/// highest byte and blue in the lowest.
pub open spec fn pack(a: u8, r: u8, g: u8, b: u8) -> u32 {
    (b as u32) | ((g as u32) << 8) | ((r as u32) << 16) | ((a as u32) << 24)
}

impl Color {
    /// The packed word of this colour.
    pub open spec fn spec_to_int(self) -> u32 {
        pack(self.0, self.1, self.2, self.3)
    }

    /// The colour whose channels are the four bytes of `i`.
    pub open spec fn spec_from_int(i: u32) -> Color {
        Color(
            ((i >> 24) & 255) as u8,
            ((i >> 16) & 255) as u8,
            ((i >> 8) & 255) as u8,
            (i & 255) as u8,
        )
    }

    /// The colour of the given red, green and blue channels; its alpha is zero.
    pub fn from_rbg(r: u8, g: u8, b: u8) -> (c: Color)
        ensures
            c == Color(0, r, g, b),
    {
        Color(0, r, g, b)
    }

    /// The colour whose channels are the four bytes of `i`, alpha in the
    /// highest byte. Packing it again gives `i` back.
    pub fn from_int(i: u32) -> (c: Color)
        ensures
            c == Color::spec_from_int(i),
            c.spec_to_int() == i,
    {
        let a: u8 = ((i >> 24) & 255) as u8;
        let r: u8 = ((i >> 16) & 255) as u8;
        let g: u8 = ((i >> 8) & 255) as u8;
        let b: u8 = (i & 255) as u8;
        proof {
            lemma_pack_unpack(i);
        }
        Color(a, r, g, b)
    }

    /// The four channels in one word, alpha in the highest byte and blue in
    /// the lowest. Unpacking it again gives this colour back.
    pub fn to_int(&self) -> (i: u32)
        ensures
            i == self.spec_to_int(),
            Color::spec_from_int(i) == *self,
    {
        proof {
            lemma_unpack_pack(self.0, self.1, self.2, self.3);
        }
        (self.3 as u32) | (self.2 as u32) << 8 | (self.1 as u32) << 16 | (self.0 as u32) << 24
    }
}

/// Packing the four bytes of a word gives the word back.
pub proof fn lemma_pack_unpack(i: u32)
    ensures
        Color::spec_from_int(i).spec_to_int() == i,
{
    assert(((i & 255) as u8 as u32) | ((((i >> 8) & 255) as u8 as u32) << 8) | ((((i >> 16)
        & 255) as u8 as u32) << 16) | ((((i >> 24) & 255) as u8 as u32) << 24) == i)
        by (bit_vector);
}

/// Unpacking a packed colour gives the four channels back.
pub proof fn lemma_unpack_pack(a: u8, r: u8, g: u8, b: u8)
    ensures
        Color::spec_from_int(pack(a, r, g, b)) == Color(a, r, g, b),
{
    let i = pack(a, r, g, b);
    assert(((i >> 24) & 255) as u8 == a) by (bit_vector)
        requires
            i == (b as u32) | ((g as u32) << 8) | ((r as u32) << 16) | ((a as u32) << 24),
    ;
    assert(((i >> 16) & 255) as u8 == r) by (bit_vector)
        requires
            i == (b as u32) | ((g as u32) << 8) | ((r as u32) << 16) | ((a as u32) << 24),
    ;
    assert(((i >> 8) & 255) as u8 == g) by (bit_vector)
        requires
            i == (b as u32) | ((g as u32) << 8) | ((r as u32) << 16) | ((a as u32) << 24),
    ;
    assert((i & 255) as u8 == b) by (bit_vector)
        requires
            i == (b as u32) | ((g as u32) << 8) | ((r as u32) << 16) | ((a as u32) << 24),
    ;
}

/// The colours that have a name.
#[derive(Debug, Copy, Clone, PartialEq, Eq, Structural)]
pub enum NamedColor {
    White,
    Black,
    Red,
    Green,
    Blue,
    DarkGray,
    Gray,
    LightGray,
}

impl NamedColor {
    pub open spec fn spec_color(self) -> Color {
        match self {
            NamedColor::White => Color(0, 255, 255, 255),
            NamedColor::Black => Color(0, 0, 0, 0),
            NamedColor::Red => Color(0, 255, 0, 0),
            NamedColor::Green => Color(0, 0, 255, 0),
            NamedColor::Blue => Color(0, 0, 0, 255),
            NamedColor::DarkGray => Color(0, 50, 50, 50),
            NamedColor::Gray => Color(0, 100, 100, 100),
            NamedColor::LightGray => Color(0, 200, 200, 200),
        }
    }

    /// The channels of the named colour; its alpha is zero.
    pub fn color(self) -> (c: Color)
        ensures
            c == self.spec_color(),
            c.0 == 0,
    {
        match self {
            NamedColor::White => Color(0, 255, 255, 255),
            NamedColor::Black => Color(0, 0, 0, 0),
            NamedColor::Red => Color(0, 255, 0, 0),
            NamedColor::Green => Color(0, 0, 255, 0),
            NamedColor::Blue => Color(0, 0, 0, 255),
            NamedColor::DarkGray => Color(0, 50, 50, 50),
            NamedColor::Gray => Color(0, 100, 100, 100),
            NamedColor::LightGray => Color(0, 200, 200, 200),
        }
    }
}

} // verus!
