//! Read-only computed-style snapshots, holding exactly the style fields the
//! layout pass reads. The CSS cascade that produces them is an external
//! collaborator; lengths arrive resolved to app units, ratios as integer
//! hundredths.

use vstd::prelude::*;
use vstd::string::StrSliceExecFns;
use crate::geometry::MAX_AU;

verus! {

/// An RGBA color with 8-bit channels.
#[derive(Clone, Copy, Debug, PartialEq, Eq, Structural)]
pub struct Color {
    pub r: u8,
    pub g: u8,
    pub b: u8,
    pub a: u8,
}

impl Color {
    pub fn rgb(r: u8, g: u8, b: u8) -> (c: Color)
        ensures
            c == (Color { r, g, b, a: 255 }),
    {
        Color { r, g, b, a: 255 }
    }

    pub fn transparent() -> (c: Color)
        ensures
            c == (Color { r: 0, g: 0, b: 0, a: 0 }),
    {
        Color { r: 0, g: 0, b: 0, a: 0 }
    }
}

/// A width or margin value: a length in app units, a percentage in
/// hundredths of a percent, or `auto`.
#[derive(Clone, Copy, Debug, PartialEq, Eq, Structural)]
pub enum LengthOrPercentageOrAuto {
    Auto,
    Length(i64),
    Percentage(i64),
}

/// A padding value: a length in app units or a percentage in hundredths of
/// a percent.
#[derive(Clone, Copy, Debug, PartialEq, Eq, Structural)]
pub enum LengthOrPercentage {
    Length(i64),
    Percentage(i64),
}

/// A computed font size: a pixel length in app units, an em factor in
/// hundredths, or anything else (which falls back to the default size).
#[derive(Clone, Copy, Debug, PartialEq, Eq, Structural)]
pub enum CssFontSize {
    LengthPx(i64),
    LengthEm(i64),
    Other,
}

#[derive(Clone, Copy, Debug, PartialEq, Eq, Structural)]
pub enum FontStyleKeyword {
    NormalStyle,
    Italic,
    Oblique,
}

/// One entry of a font-family list: a named family or a generic one.
#[derive(Clone, Debug)]
pub enum FontFamily {
    FamilyName(String),
    Serif,
    SansSerif,
    Cursive,
    Fantasy,
    Monospace,
}

/// A computed line-height: `normal`, a bare number or em factor in
/// hundredths, a pixel length in app units, or a percentage in hundredths.
#[derive(Clone, Copy, Debug, PartialEq, Eq, Structural)]
pub enum LineHeight {
    NormalHeight,
    Number(i64),
    Em(i64),
    Px(i64),
    Percentage(i64),
}

#[derive(Clone, Copy, Debug, PartialEq, Eq, Structural)]
pub enum TextDecoration {
    NoDecoration,
    Underline,
    Overline,
    LineThrough,
}

#[derive(Clone, Copy, Debug, PartialEq, Eq, Structural)]
pub enum TextAlign {
    Left,
    Right,
    Center,
    Justify,
}

#[derive(Clone, Copy, Debug, PartialEq, Eq, Structural)]
pub enum VerticalAlign {
    Baseline,
    Sub,
    Super,
    Top,
    TextTop,
    Middle,
    Bottom,
    TextBottom,
}

#[derive(Clone, Copy, Debug, PartialEq, Eq, Structural)]
pub enum Display {
    Block,
    Inline,
    InlineBlock,
    InlineTable,
    Hidden,
}

#[derive(Clone, Copy, Debug, PartialEq, Eq, Structural)]
pub enum Position {
    Static,
    Relative,
    Absolute,
    Fixed,
}

#[derive(Clone, Copy, Debug, PartialEq, Eq, Structural)]
pub enum FloatKind {
    NoFloat,
    FloatLeft,
    FloatRight,
}

#[derive(Clone, Copy, Debug, PartialEq, Eq, Structural)]
pub enum ClearKeyword {
    NoClear,
    Left,
    Right,
    Both,
}

/// The side a box must move below, when it clears floats at all.
#[derive(Clone, Copy, Debug, PartialEq, Eq, Structural)]
pub enum ClearType {
    ClearLeft,
    ClearRight,
    ClearBoth,
}

#[derive(Clone, Copy, Debug, PartialEq, Eq, Structural)]
pub enum BorderStyle {
    HiddenBorder,
    Solid,
    Dashed,
    Dotted,
}

/// The computed style snapshot of one document node.
#[derive(Clone, Debug)]
pub struct ComputedStyle {
    pub width: LengthOrPercentageOrAuto,
    pub margin_left: LengthOrPercentageOrAuto,
    pub margin_right: LengthOrPercentageOrAuto,
    pub padding_top: LengthOrPercentage,
    pub padding_right: LengthOrPercentage,
    pub padding_bottom: LengthOrPercentage,
    pub padding_left: LengthOrPercentage,
    pub border_top_width: i64,
    pub border_right_width: i64,
    pub border_bottom_width: i64,
    pub border_left_width: i64,
    pub border_top_color: Color,
    pub border_right_color: Color,
    pub border_bottom_color: Color,
    pub border_left_color: Color,
    pub border_top_style: BorderStyle,
    pub border_right_style: BorderStyle,
    pub border_bottom_style: BorderStyle,
    pub border_left_style: BorderStyle,
    pub background_color: Color,
    pub color: Color,
    pub font_family: Vec<FontFamily>,
    pub font_size: CssFontSize,
    pub font_style: FontStyleKeyword,
    pub display: Display,
    pub position: Position,
    pub float_kind: FloatKind,
    pub clear: ClearKeyword,
    pub line_height: LineHeight,
    pub text_decoration: TextDecoration,
    pub text_align: TextAlign,
    pub vertical_align: VerticalAlign,
}

pub open spec fn length_or_pct_or_auto_wf(v: LengthOrPercentageOrAuto) -> bool {
    match v {
        LengthOrPercentageOrAuto::Auto => true,
        LengthOrPercentageOrAuto::Length(l) => 0 <= l <= MAX_AU,
        LengthOrPercentageOrAuto::Percentage(p) => 0 <= p <= 10000,
    }
}

pub open spec fn length_or_pct_wf(v: LengthOrPercentage) -> bool {
    match v {
        LengthOrPercentage::Length(l) => 0 <= l <= MAX_AU,
        LengthOrPercentage::Percentage(p) => 0 <= p <= 10000,
    }
}

pub open spec fn font_size_wf(v: CssFontSize) -> bool {
    match v {
        CssFontSize::LengthPx(l) => 0 <= l <= MAX_AU,
        CssFontSize::LengthEm(e) => 0 <= e <= 10000,
        CssFontSize::Other => true,
    }
}

pub open spec fn line_height_wf(v: LineHeight) -> bool {
    match v {
        LineHeight::NormalHeight => true,
        LineHeight::Number(n) => 0 <= n <= 10000,
        LineHeight::Em(e) => 0 <= e <= 10000,
        LineHeight::Px(l) => 0 <= l <= MAX_AU,
        LineHeight::Percentage(p) => 0 <= p <= 10000,
    }
}

impl ComputedStyle {
    /// Every length within the app-unit bound and every ratio within its
    /// scale, so that the handful-of-terms sums of the box model fit `i64`.
    pub open spec fn wf(&self) -> bool {
        &&& length_or_pct_or_auto_wf(self.width)
        &&& length_or_pct_or_auto_wf(self.margin_left)
        &&& length_or_pct_or_auto_wf(self.margin_right)
        &&& length_or_pct_wf(self.padding_top)
        &&& length_or_pct_wf(self.padding_right)
        &&& length_or_pct_wf(self.padding_bottom)
        &&& length_or_pct_wf(self.padding_left)
        &&& 0 <= self.border_top_width <= MAX_AU
        &&& 0 <= self.border_right_width <= MAX_AU
        &&& 0 <= self.border_bottom_width <= MAX_AU
        &&& 0 <= self.border_left_width <= MAX_AU
        &&& font_size_wf(self.font_size)
        &&& line_height_wf(self.line_height)
    }

    /// A default style: everything auto, zero or initial, black text on a
    /// transparent background, 16px serif type.
    pub fn initial() -> (r: ComputedStyle)
        ensures
            r.wf(),
            r.width == LengthOrPercentageOrAuto::Auto,
            r.margin_left == LengthOrPercentageOrAuto::Auto,
            r.margin_right == LengthOrPercentageOrAuto::Auto,
            r.padding_top == LengthOrPercentage::Length(0),
            r.padding_right == LengthOrPercentage::Length(0),
            r.padding_bottom == LengthOrPercentage::Length(0),
            r.padding_left == LengthOrPercentage::Length(0),
            r.border_top_width == 0,
            r.border_right_width == 0,
            r.border_bottom_width == 0,
            r.border_left_width == 0,
            r.background_color == (Color { r: 0, g: 0, b: 0, a: 0 }),
            r.color == (Color { r: 0, g: 0, b: 0, a: 255 }),
            r.font_family@.len() == 0,
            r.font_size == CssFontSize::Other,
            r.font_style == FontStyleKeyword::NormalStyle,
            r.display == Display::Inline,
            r.position == Position::Static,
            r.float_kind == FloatKind::NoFloat,
            r.clear == ClearKeyword::NoClear,
            r.line_height == LineHeight::NormalHeight,
            r.text_decoration == TextDecoration::NoDecoration,
            r.text_align == TextAlign::Left,
            r.vertical_align == VerticalAlign::Baseline,
    {
        ComputedStyle {
            width: LengthOrPercentageOrAuto::Auto,
            margin_left: LengthOrPercentageOrAuto::Auto,
            margin_right: LengthOrPercentageOrAuto::Auto,
            padding_top: LengthOrPercentage::Length(0),
            padding_right: LengthOrPercentage::Length(0),
            padding_bottom: LengthOrPercentage::Length(0),
            padding_left: LengthOrPercentage::Length(0),
            border_top_width: 0,
            border_right_width: 0,
            border_bottom_width: 0,
            border_left_width: 0,
            border_top_color: Color { r: 0, g: 0, b: 0, a: 255 },
            border_right_color: Color { r: 0, g: 0, b: 0, a: 255 },
            border_bottom_color: Color { r: 0, g: 0, b: 0, a: 255 },
            border_left_color: Color { r: 0, g: 0, b: 0, a: 255 },
            border_top_style: BorderStyle::HiddenBorder,
            border_right_style: BorderStyle::HiddenBorder,
            border_bottom_style: BorderStyle::HiddenBorder,
            border_left_style: BorderStyle::HiddenBorder,
            background_color: Color { r: 0, g: 0, b: 0, a: 0 },
            color: Color { r: 0, g: 0, b: 0, a: 255 },
            font_family: Vec::new(),
            font_size: CssFontSize::Other,
            font_style: FontStyleKeyword::NormalStyle,
            display: Display::Inline,
            position: Position::Static,
            float_kind: FloatKind::NoFloat,
            clear: ClearKeyword::NoClear,
            line_height: LineHeight::NormalHeight,
            text_decoration: TextDecoration::NoDecoration,
            text_align: TextAlign::Left,
            vertical_align: VerticalAlign::Baseline,
        }
    }
}

/// The font weight every box is rendered with: one fixed weight, a
/// deliberate simplification of this layout core.
#[derive(Clone, Copy, Debug, PartialEq, Eq, Structural)]
pub enum FontWeight {
    Weight300,
}

/// The font description handed to the rasterizer: size in app units, one
/// fixed weight, slant flags, and the family list joined with `", "`.
#[derive(Clone, Debug)]
pub struct FontStyle {
    pub pt_size: i64,
    pub weight: FontWeight,
    pub italic: bool,
    pub oblique: bool,
    pub families: String,
}

/// The mathematical value of a `FontStyle`.
#[verifier::ext_equal]
pub struct FontStyleView {
    pub pt_size: int,
    pub weight: FontWeight,
    pub italic: bool,
    pub oblique: bool,
    pub families: Seq<char>,
}

impl View for FontStyle {
    type V = FontStyleView;

    open spec fn view(&self) -> FontStyleView {
        FontStyleView {
            pt_size: self.pt_size as int,
            weight: self.weight,
            italic: self.italic,
            oblique: self.oblique,
            families: self.families@,
        }
    }
}

impl FontStyle {
    /// A copy of this description with the same value.
    pub fn duplicate(&self) -> (r: FontStyle)
        ensures
            r@ == self@,
    {
        let r = FontStyle {
            pt_size: self.pt_size,
            weight: FontWeight::Weight300,
            italic: self.italic,
            oblique: self.oblique,
            families: self.families.clone(),
        };
        proof {
            assert(r@ =~= self@);
        }
        r
    }

    /// Field-wise equality, the comparison merge checks use.
    pub fn same_as(&self, other: &FontStyle) -> (r: bool)
        ensures
            r == (self@ == other@),
    {
        let eq = self.pt_size == other.pt_size && self.weight == other.weight && self.italic
            == other.italic && self.oblique == other.oblique
            && str_eq(self.families.as_str(), other.families.as_str());
        proof {
            if eq {
                assert(self@ =~= other@);
            }
        }
        eq
    }
}

/// Character-wise string comparison.
pub fn str_eq(a: &str, b: &str) -> (r: bool)
    ensures
        r == (a@ == b@),
{
    let na = a.unicode_len();
    let nb = b.unicode_len();
    if na != nb {
        proof {
            assert(a@ != b@) by {
                assert(a@.len() != b@.len());
            }
        }
        return false;
    }
    let mut i: usize = 0;
    while i < na
        invariant
            na == a@.len(),
            nb == b@.len(),
            na == nb,
            0 <= i <= na,
            forall|j: int| 0 <= j < i ==> a@[j] == b@[j],
        decreases na - i,
    {
        if a.get_char(i) != b.get_char(i) {
            proof {
                assert(a@[i as int] != b@[i as int]);
            }
            return false;
        }
        i = i + 1;
    }
    proof {
        assert(a@ =~= b@);
    }
    true
}

} // verus!
