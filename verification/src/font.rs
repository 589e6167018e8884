use vstd::prelude::*;

use crate::ml::{created, Handle};

verus! {

pub const FW_DONTCARE: i32 = 0;
pub const FW_THIN: i32 = 100;
pub const FW_EXTRALIGHT: i32 = 200;
pub const FW_ULTRALIGHT: i32 = 200;
pub const FW_LIGHT: i32 = 300;
pub const FW_NORMAL: i32 = 400;
pub const FW_REGULAR: i32 = 400;
pub const FW_MEDIUM: i32 = 500;
pub const FW_SEMIBOLD: i32 = 600;
pub const FW_DEMIBOLD: i32 = 600;
pub const FW_BOLD: i32 = 700;
pub const FW_EXTRABOLD: i32 = 800;
pub const FW_ULTRABOLD: i32 = 800;
pub const FW_HEAVY: i32 = 900;
pub const FW_BLACK: i32 = 900;

/// How heavy the strokes of a font are, from 0 to 1000; 0 leaves the choice to
/// the system.
#[derive(Clone, Copy, Debug, PartialEq, Eq, Structural)]
pub enum FontWeight {
    DontCare,
    Thin,
    ExtraLight,
    UltraLight,
    Light,
    Normal,
    Regular,
    Medium,
    Semibold,
    Demibold,
    Bold,
    ExtraBold,
    UltraBold,
    Heavy,
    Black,
    Other(i32),
}

impl FontWeight {
    pub open spec fn spec_to_int(self) -> i32 {
        match self {
            FontWeight::DontCare => FW_DONTCARE,
            FontWeight::Thin => FW_THIN,
            FontWeight::ExtraLight => FW_EXTRALIGHT,
            FontWeight::UltraLight => FW_ULTRALIGHT,
            FontWeight::Light => FW_LIGHT,
            FontWeight::Normal => FW_NORMAL,
            FontWeight::Regular => FW_REGULAR,
            FontWeight::Medium => FW_MEDIUM,
            FontWeight::Semibold => FW_SEMIBOLD,
            FontWeight::Demibold => FW_DEMIBOLD,
            FontWeight::Bold => FW_BOLD,
            FontWeight::ExtraBold => FW_EXTRABOLD,
            FontWeight::UltraBold => FW_ULTRABOLD,
            FontWeight::Heavy => FW_HEAVY,
            FontWeight::Black => FW_BLACK,
            FontWeight::Other(x) => x,
        }
    }

    /// The weight as the system counts it: a named weight is a multiple of
    /// 100, any other weight is itself.
    pub fn to_int(&self) -> (r: i32)
        ensures
            r == self.spec_to_int(),
            !(*self is Other) ==> 0 <= r <= 900 && r % 100 == 0,
    {
        match *self {
            FontWeight::DontCare => FW_DONTCARE,
            FontWeight::Thin => FW_THIN,
            FontWeight::ExtraLight => FW_EXTRALIGHT,
            FontWeight::UltraLight => FW_ULTRALIGHT,
            FontWeight::Light => FW_LIGHT,
            FontWeight::Normal => FW_NORMAL,
            FontWeight::Regular => FW_REGULAR,
            FontWeight::Medium => FW_MEDIUM,
            FontWeight::Semibold => FW_SEMIBOLD,
            FontWeight::Demibold => FW_DEMIBOLD,
            FontWeight::Bold => FW_BOLD,
            FontWeight::ExtraBold => FW_EXTRABOLD,
            FontWeight::UltraBold => FW_ULTRABOLD,
            FontWeight::Heavy => FW_HEAVY,
            FontWeight::Black => FW_BLACK,
            FontWeight::Other(x) => x,
        }
    }
}

pub const ANSI_CHARSET: u32 = 0;
pub const DEFAULT_CHARSET: u32 = 1;
pub const SYMBOL_CHARSET: u32 = 2;
pub const MAC_CHARSET: u32 = 77;
pub const SHIFTJIS_CHARSET: u32 = 128;
pub const HANGUL_CHARSET: u32 = 129;
pub const JOHAB_CHARSET: u32 = 130;
pub const GB2312_CHARSET: u32 = 134;
pub const CHINESEBIG5_CHARSET: u32 = 136;
pub const GREEK_CHARSET: u32 = 161;
pub const TURKISH_CHARSET: u32 = 162;
pub const VIETNAMESE_CHARSET: u32 = 163;
pub const HEBREW_CHARSET: u32 = 177;
pub const ARABIC_CHARSET: u32 = 178;
pub const BALTIC_CHARSET: u32 = 186;
pub const RUSSIAN_CHARSET: u32 = 204;
pub const THAI_CHARSET: u32 = 222;
pub const EASTEUROPE_CHARSET: u32 = 238;
pub const OEM_CHARSET: u32 = 255;

/// The character set that a font has to cover.
#[derive(Clone, Copy, Debug, PartialEq, Eq, Structural)]
pub enum CharSet {
    Ansi,
    Baltic,
    ChineseBig5,
    Default,
    EastEurope,
    Gb2312,
    Greek,
    Hangul,
    Mac,
    OEM,
    Russian,
    ShiftJIS,
    Symbol,
    Turkish,
    Vietnamese,
    Johab,
    Arabic,
    Hebrew,
    Thai,
}

impl CharSet {
    pub open spec fn spec_to_uint(self) -> u32 {
        match self {
            CharSet::Ansi => ANSI_CHARSET,
            CharSet::Baltic => BALTIC_CHARSET,
            CharSet::ChineseBig5 => CHINESEBIG5_CHARSET,
            CharSet::Default => DEFAULT_CHARSET,
            CharSet::EastEurope => EASTEUROPE_CHARSET,
            CharSet::Gb2312 => GB2312_CHARSET,
            CharSet::Greek => GREEK_CHARSET,
            CharSet::Hangul => HANGUL_CHARSET,
            CharSet::Mac => MAC_CHARSET,
            CharSet::OEM => OEM_CHARSET,
            CharSet::Russian => RUSSIAN_CHARSET,
            CharSet::ShiftJIS => SHIFTJIS_CHARSET,
            CharSet::Symbol => SYMBOL_CHARSET,
            CharSet::Turkish => TURKISH_CHARSET,
            CharSet::Vietnamese => VIETNAMESE_CHARSET,
            CharSet::Johab => JOHAB_CHARSET,
            CharSet::Arabic => ARABIC_CHARSET,
            CharSet::Hebrew => HEBREW_CHARSET,
            CharSet::Thai => THAI_CHARSET,
        }
    }

    /// The identifier of the character set; it fits in one byte.
    pub fn to_uint(&self) -> (r: u32)
        ensures
            r == self.spec_to_uint(),
            r <= 255,
    {
        match *self {
            CharSet::Ansi => ANSI_CHARSET,
            CharSet::Baltic => BALTIC_CHARSET,
            CharSet::ChineseBig5 => CHINESEBIG5_CHARSET,
            CharSet::Default => DEFAULT_CHARSET,
            CharSet::EastEurope => EASTEUROPE_CHARSET,
            CharSet::Gb2312 => GB2312_CHARSET,
            CharSet::Greek => GREEK_CHARSET,
            CharSet::Hangul => HANGUL_CHARSET,
            CharSet::Mac => MAC_CHARSET,
            CharSet::OEM => OEM_CHARSET,
            CharSet::Russian => RUSSIAN_CHARSET,
            CharSet::ShiftJIS => SHIFTJIS_CHARSET,
            CharSet::Symbol => SYMBOL_CHARSET,
            CharSet::Turkish => TURKISH_CHARSET,
            CharSet::Vietnamese => VIETNAMESE_CHARSET,
            CharSet::Johab => JOHAB_CHARSET,
            CharSet::Arabic => ARABIC_CHARSET,
            CharSet::Hebrew => HEBREW_CHARSET,
            CharSet::Thai => THAI_CHARSET,
        }
    }
}

pub const OUT_DEFAULT_PRECIS: u32 = 0;
pub const OUT_STRING_PRECIS: u32 = 1;
pub const OUT_CHARACTER_PRECIS: u32 = 2;
pub const OUT_STROKE_PRECIS: u32 = 3;
pub const OUT_TT_PRECIS: u32 = 4;
pub const OUT_DEVICE_PRECIS: u32 = 5;
pub const OUT_RASTER_PRECIS: u32 = 6;
pub const OUT_TT_ONLY_PRECIS: u32 = 7;
pub const OUT_OUTLINE_PRECIS: u32 = 8;
pub const OUT_PS_ONLY_PRECIS: u32 = 10;

/// How closely the font that the system picks has to match the request.
#[derive(Clone, Copy, Debug, PartialEq, Eq, Structural)]
pub enum OutputPrecision {
    Character,
    Default,
    Device,
    Outline,
    PsOnly,
    Raster,
    String,
    Stroke,
    TrueTypeOnly,
    TrueType,
}

impl OutputPrecision {
    pub open spec fn spec_to_uint(self) -> u32 {
        match self {
            OutputPrecision::Character => OUT_CHARACTER_PRECIS,
            OutputPrecision::Default => OUT_DEFAULT_PRECIS,
            OutputPrecision::Device => OUT_DEVICE_PRECIS,
            OutputPrecision::Outline => OUT_OUTLINE_PRECIS,
            OutputPrecision::PsOnly => OUT_PS_ONLY_PRECIS,
            OutputPrecision::Raster => OUT_RASTER_PRECIS,
            OutputPrecision::String => OUT_STRING_PRECIS,
            OutputPrecision::Stroke => OUT_STROKE_PRECIS,
            OutputPrecision::TrueTypeOnly => OUT_TT_ONLY_PRECIS,
            OutputPrecision::TrueType => OUT_TT_PRECIS,
        }
    }

    /// The output precision as the system counts it.
    pub fn to_uint(&self) -> (r: u32)
        ensures
            r == self.spec_to_uint(),
            r <= 10,
    {
        match *self {
            OutputPrecision::Character => OUT_CHARACTER_PRECIS,
            OutputPrecision::Default => OUT_DEFAULT_PRECIS,
            OutputPrecision::Device => OUT_DEVICE_PRECIS,
            OutputPrecision::Outline => OUT_OUTLINE_PRECIS,
            OutputPrecision::PsOnly => OUT_PS_ONLY_PRECIS,
            OutputPrecision::Raster => OUT_RASTER_PRECIS,
            OutputPrecision::String => OUT_STRING_PRECIS,
            OutputPrecision::Stroke => OUT_STROKE_PRECIS,
            OutputPrecision::TrueTypeOnly => OUT_TT_ONLY_PRECIS,
            OutputPrecision::TrueType => OUT_TT_PRECIS,
        }
    }
}

pub const CLIP_DEFAULT_PRECIS: u32 = 0;
pub const CLIP_CHARACTER_PRECIS: u32 = 1;
pub const CLIP_STROKE_PRECIS: u32 = 2;
pub const CLIP_MASK: u32 = 0x0f;
pub const CLIP_LH_ANGLES: u32 = 0x10;
pub const CLIP_TT_ALWAYS: u32 = 0x20;
pub const CLIP_DFA_DISABLE: u32 = 0x40;
pub const CLIP_EMBEDDED: u32 = 0x80;

/// How characters that lie partly outside the clipping region are clipped.
#[derive(Clone, Copy, Debug, PartialEq, Eq, Structural)]
pub enum ClipPrecision {
    Character,
    Default,
    DFADisable,
    Embedded,
    LHAngles,
    Mask,
    DFAOverride,
    Stroke,
    TrueTypeAlways,
}

impl ClipPrecision {
    pub open spec fn spec_to_uint(self) -> u32 {
        match self {
            ClipPrecision::Character => CLIP_CHARACTER_PRECIS,
            ClipPrecision::Default => CLIP_DEFAULT_PRECIS,
            ClipPrecision::DFADisable => CLIP_DFA_DISABLE,
            ClipPrecision::Embedded => CLIP_EMBEDDED,
            ClipPrecision::LHAngles => CLIP_LH_ANGLES,
            ClipPrecision::Mask => CLIP_MASK,
            ClipPrecision::Stroke => CLIP_STROKE_PRECIS,
            ClipPrecision::TrueTypeAlways => CLIP_TT_ALWAYS,
            ClipPrecision::DFAOverride => CLIP_DEFAULT_PRECIS,
        }
    }

    /// The clipping precision as the system counts it. `DFAOverride` has no
    /// value of its own on most versions of the system: it is a known
    /// approximation that it asks for the default precision.
    pub fn to_uint(&self) -> (r: u32)
        ensures
            r == self.spec_to_uint(),
            *self is DFAOverride ==> r == ClipPrecision::Default.spec_to_uint(),
    {
        match *self {
            ClipPrecision::Character => CLIP_CHARACTER_PRECIS,
            ClipPrecision::Default => CLIP_DEFAULT_PRECIS,
            ClipPrecision::DFADisable => CLIP_DFA_DISABLE,
            ClipPrecision::Embedded => CLIP_EMBEDDED,
            ClipPrecision::LHAngles => CLIP_LH_ANGLES,
            ClipPrecision::Mask => CLIP_MASK,
            ClipPrecision::Stroke => CLIP_STROKE_PRECIS,
            ClipPrecision::TrueTypeAlways => CLIP_TT_ALWAYS,
            ClipPrecision::DFAOverride => CLIP_DEFAULT_PRECIS,
        }
    }
}

pub const DEFAULT_QUALITY: u32 = 0;
pub const DRAFT_QUALITY: u32 = 1;
pub const PROOF_QUALITY: u32 = 2;
pub const NONANTIALIASED_QUALITY: u32 = 3;
pub const ANTIALIASED_QUALITY: u32 = 4;
pub const CLEARTYPE_QUALITY: u32 = 5;

/// How carefully the system renders the glyphs.
#[derive(Clone, Copy, Debug, PartialEq, Eq, Structural)]
pub enum FontQuality {
    AntiAliased,
    ClearType,
    Default,
    Draft,
    NonAntiAliased,
    Proof,
}

impl FontQuality {
    pub open spec fn spec_to_uint(self) -> u32 {
        match self {
            FontQuality::AntiAliased => ANTIALIASED_QUALITY,
            FontQuality::ClearType => CLEARTYPE_QUALITY,
            FontQuality::Default => DEFAULT_QUALITY,
            FontQuality::Draft => DRAFT_QUALITY,
            FontQuality::NonAntiAliased => NONANTIALIASED_QUALITY,
            FontQuality::Proof => PROOF_QUALITY,
        }
    }

    /// The quality as the system counts it.
    pub fn to_uint(&self) -> (r: u32)
        ensures
            r == self.spec_to_uint(),
            r <= 5,
    {
        match *self {
            FontQuality::AntiAliased => ANTIALIASED_QUALITY,
            FontQuality::ClearType => CLEARTYPE_QUALITY,
            FontQuality::Default => DEFAULT_QUALITY,
            FontQuality::Draft => DRAFT_QUALITY,
            FontQuality::NonAntiAliased => NONANTIALIASED_QUALITY,
            FontQuality::Proof => PROOF_QUALITY,
        }
    }
}

/// Default pitch, no preference for a family.
pub const DEFAULT_PITCH_AND_FAMILY: u32 = 0;

/// The family of typefaces to pick from.
#[derive(Clone, Copy, Debug, PartialEq, Eq, Structural)]
pub enum FontPitch {
    Decorative,
    DontCare,
    Modern,
    Roman,
    Script,
    Swiss,
}

impl FontPitch {
    pub open spec fn spec_to_uint(self) -> u32 {
        DEFAULT_PITCH_AND_FAMILY
    }

    /// The pitch and family as the system counts them. It is a known
    /// approximation that every family asks for the default: the system then
    /// chooses by the face name alone.
    pub fn to_uint(&self) -> (r: u32)
        ensures
            r == self.spec_to_uint(),
            r == FontPitch::DontCare.spec_to_uint(),
    {
        DEFAULT_PITCH_AND_FAMILY
    }
}

/// The arguments of one request for a font, as the system takes them.
#[derive(Clone, Debug, PartialEq, Eq)]
pub struct FontRequest {
    pub height: i32,
    pub width: i32,
    pub escapement: i32,
    pub orientation: i32,
    pub weight: i32,
    pub italic: u32,
    pub underline: u32,
    pub strikeout: u32,
    pub charset: u32,
    pub output_precision: u32,
    pub clip_precision: u32,
    pub quality: u32,
    pub pitch_and_family: u32,
    pub face: String,
}

/// A flag as the system takes it: 1 for set, 0 for clear.
pub open spec fn spec_flag(b: bool) -> u32 {
    if b {
        1
    } else {
        0
    }
}

fn flag(b: bool) -> (r: u32)
    ensures
        r == spec_flag(b),
{
    if b {
        1
    } else {
        0
    }
}

/// The description of a font: what a program asks for before the system
/// picks a concrete font.
#[derive(Clone, Debug, PartialEq, Eq)]
pub struct FontBuilder {
    pub height: i32,
    pub width: i32,
    pub escapement: i32,
    pub orientation: i32,
    pub weight: FontWeight,
    pub italic: bool,
    pub underline: bool,
    pub strikeout: bool,
    pub charset: CharSet,
    pub output_precision: OutputPrecision,
    pub clip_precision: ClipPrecision,
    pub quality: FontQuality,
    pub pitch: FontPitch,
    pub face: String,
}

impl FontBuilder {
    /// Nothing was set: height 12, every other number 0, no style flag, and
    /// the default choice for weight, character set, precisions, quality and
    /// pitch, with no face name.
    pub open spec fn is_default(self) -> bool {
        &&& self.height == 12
        &&& self.width == 0
        &&& self.escapement == 0
        &&& self.orientation == 0
        &&& self.weight == FontWeight::DontCare
        &&& !self.italic
        &&& !self.underline
        &&& !self.strikeout
        &&& self.charset == CharSet::Default
        &&& self.output_precision == OutputPrecision::Default
        &&& self.clip_precision == ClipPrecision::Default
        &&& self.quality == FontQuality::Default
        &&& self.pitch == FontPitch::DontCare
        &&& self.face@ == Seq::<char>::empty()
    }

    /// What the description asks of the system.
    pub open spec fn spec_build(self) -> FontRequest {
        FontRequest {
            height: self.height,
            width: self.width,
            escapement: self.escapement,
            orientation: self.orientation,
            weight: self.weight.spec_to_int(),
            italic: spec_flag(self.italic),
            underline: spec_flag(self.underline),
            strikeout: spec_flag(self.strikeout),
            charset: self.charset.spec_to_uint(),
            output_precision: self.output_precision.spec_to_uint(),
            clip_precision: self.clip_precision.spec_to_uint(),
            quality: self.quality.spec_to_uint(),
            pitch_and_family: self.pitch.spec_to_uint(),
            face: self.face,
        }
    }

    /// A description with nothing set.
    pub fn new() -> (b: FontBuilder)
        ensures
            b.is_default(),
    {
        FontBuilder {
            height: 12,
            width: 0,
            escapement: 0,
            orientation: 0,
            weight: FontWeight::DontCare,
            italic: false,
            underline: false,
            strikeout: false,
            charset: CharSet::Default,
            output_precision: OutputPrecision::Default,
            clip_precision: ClipPrecision::Default,
            quality: FontQuality::Default,
            pitch: FontPitch::DontCare,
            face: String::new(),
        }
    }

    /// The request to hand to the system. It depends on the description
    /// alone: two equal descriptions give equal requests.
    pub fn build(&self) -> (r: FontRequest)
        ensures
            r == self.spec_build(),
    {
        FontRequest {
            height: self.height,
            width: self.width,
            escapement: self.escapement,
            orientation: self.orientation,
            weight: self.weight.to_int(),
            italic: flag(self.italic),
            underline: flag(self.underline),
            strikeout: flag(self.strikeout),
            charset: self.charset.to_uint(),
            output_precision: self.output_precision.to_uint(),
            clip_precision: self.clip_precision.to_uint(),
            quality: self.quality.to_uint(),
            pitch_and_family: self.pitch.to_uint(),
            face: self.face.clone(),
        }
    }

    /// Sets the height of the character cell, in logical units.
    pub fn set_height(&mut self, height: i32) -> (ret: &mut Self)
        ensures
            *ret == (FontBuilder { height, ..*old(self) }),
            *final(self) == *final(ret),
    {
        self.height = height;
        self
    }

    /// Sets the average character width; 0 lets the system choose.
    pub fn set_width(&mut self, width: i32) -> (ret: &mut Self)
        ensures
            *ret == (FontBuilder { width, ..*old(self) }),
            *final(self) == *final(ret),
    {
        self.width = width;
        self
    }

    /// Sets the angle of the base line, in tenths of a degree.
    pub fn set_escapement(&mut self, escapement: i32) -> (ret: &mut Self)
        ensures
            *ret == (FontBuilder { escapement, ..*old(self) }),
            *final(self) == *final(ret),
    {
        self.escapement = escapement;
        self
    }

    /// Sets the angle of each character, in tenths of a degree.
    pub fn set_orientation(&mut self, orientation: i32) -> (ret: &mut Self)
        ensures
            *ret == (FontBuilder { orientation, ..*old(self) }),
            *final(self) == *final(ret),
    {
        self.orientation = orientation;
        self
    }

    /// Sets the stroke weight.
    pub fn set_weight(&mut self, weight: FontWeight) -> (ret: &mut Self)
        ensures
            *ret == (FontBuilder { weight, ..*old(self) }),
            *final(self) == *final(ret),
    {
        self.weight = weight;
        self
    }

    /// Asks for an italic font, or not.
    pub fn set_italic(&mut self, italic: bool) -> (ret: &mut Self)
        ensures
            *ret == (FontBuilder { italic, ..*old(self) }),
            *final(self) == *final(ret),
    {
        self.italic = italic;
        self
    }

    /// Asks for an underlined font, or not.
    pub fn set_underline(&mut self, underline: bool) -> (ret: &mut Self)
        ensures
            *ret == (FontBuilder { underline, ..*old(self) }),
            *final(self) == *final(ret),
    {
        self.underline = underline;
        self
    }

    /// Asks for a struck-out font, or not.
    pub fn set_strikeout(&mut self, strikeout: bool) -> (ret: &mut Self)
        ensures
            *ret == (FontBuilder { strikeout, ..*old(self) }),
            *final(self) == *final(ret),
    {
        self.strikeout = strikeout;
        self
    }

    /// Sets the character set.
    pub fn set_charset(&mut self, charset: CharSet) -> (ret: &mut Self)
        ensures
            *ret == (FontBuilder { charset, ..*old(self) }),
            *final(self) == *final(ret),
    {
        self.charset = charset;
        self
    }

    /// Sets the output precision.
    pub fn set_output_precision(&mut self, precision: OutputPrecision) -> (ret: &mut Self)
        ensures
            *ret == (FontBuilder { output_precision: precision, ..*old(self) }),
            *final(self) == *final(ret),
    {
        self.output_precision = precision;
        self
    }

    /// Sets the clipping precision.
    pub fn set_clip_precision(&mut self, precision: ClipPrecision) -> (ret: &mut Self)
        ensures
            *ret == (FontBuilder { clip_precision: precision, ..*old(self) }),
            *final(self) == *final(ret),
    {
        self.clip_precision = precision;
        self
    }

    /// Sets the output quality.
    pub fn set_quality(&mut self, quality: FontQuality) -> (ret: &mut Self)
        ensures
            *ret == (FontBuilder { quality, ..*old(self) }),
            *final(self) == *final(ret),
    {
        self.quality = quality;
        self
    }

    /// Sets the pitch and family.
    pub fn set_pitch(&mut self, pitch: FontPitch) -> (ret: &mut Self)
        ensures
            *ret == (FontBuilder { pitch, ..*old(self) }),
            *final(self) == *final(ret),
    {
        self.pitch = pitch;
        self
    }

    /// Sets the name of the typeface; the empty name lets the system choose.
    pub fn set_face(&mut self, face: String) -> (ret: &mut Self)
        ensures
            *ret == (FontBuilder { face, ..*old(self) }),
            *final(self) == *final(ret),
    {
        self.face = face;
        self
    }
}

/// The request of a description with nothing set: height 12 and zero, the
/// default, for everything else.
pub proof fn lemma_default_request(b: FontBuilder)
    requires
        b.is_default(),
    ensures
        b.spec_build().height == 12,
        b.spec_build().width == 0,
        b.spec_build().escapement == 0,
        b.spec_build().orientation == 0,
        b.spec_build().weight == FW_DONTCARE,
        b.spec_build().italic == 0,
        b.spec_build().underline == 0,
        b.spec_build().strikeout == 0,
        b.spec_build().charset == DEFAULT_CHARSET,
        b.spec_build().output_precision == OUT_DEFAULT_PRECIS,
        b.spec_build().clip_precision == CLIP_DEFAULT_PRECIS,
        b.spec_build().quality == DEFAULT_QUALITY,
        b.spec_build().pitch_and_family == DEFAULT_PITCH_AND_FAMILY,
        b.spec_build().face@ == Seq::<char>::empty(),
{
}

/// A font that the system made. Whoever holds the value owns the resource
/// and gives it back once.
#[derive(Debug)]
pub struct Font {
    handle: Handle,
}

impl Font {
    pub closed spec fn spec_handle(self) -> Handle {
        self.handle
    }

    /// The font behind a handle that the system returned.
    pub fn new(handle: Handle) -> (f: Font)
        ensures
            f.spec_handle() == handle,
    {
        Font { handle }
    }

    /// The outcome of a request for a font: the font, where the system
    /// returned a handle, else the error code that it recorded.
    pub fn from_created(handle: Handle, last_error: u32) -> (r: Result<Font, u32>)
        ensures
            handle.spec_is_null() ==> r == Err::<Font, u32>(last_error),
            !handle.spec_is_null() ==> r is Ok && r->Ok_0.spec_handle() == handle,
    {
        match created(handle, last_error) {
            Ok(h) => Ok(Font::new(h)),
            Err(e) => Err(e),
        }
    }

    /// The handle of the resource, to select it or to give it back.
    pub fn handle(&self) -> (h: Handle)
        ensures
            h == self.spec_handle(),
    {
        self.handle
    }
}

} // verus!
