//! Value types for XAML user interfaces: themes, alignments, colors and fonts.
use vstd::prelude::*;

verus! {

/// Supported XAML themes.
#[derive(Debug, Clone, Copy, PartialEq, Eq, Structural, Default)]
pub enum ElementTheme {
    /// The system's theme.
    #[default]
    Default,
    /// The light theme.
    Light,
    /// The dark theme.
    Dark,
}

/// Horizontal alignment of an element.
#[derive(Debug, Clone, Copy, PartialEq, Eq, Structural, Default)]
pub enum HorizontalAlignment {
    /// Aligned to the left.
    Left,
    /// Centered.
    Center,
    /// Aligned to the right.
    Right,
    /// Stretched to fill.
    #[default]
    Stretch,
}

/// Vertical alignment of an element.
#[derive(Debug, Clone, Copy, PartialEq, Eq, Structural, Default)]
pub enum VerticalAlignment {
    /// Aligned to the top.
    Top,
    /// Centered.
    Center,
    /// Aligned to the bottom.
    Bottom,
    /// Stretched to fill.
    #[default]
    Stretch,
}

/// Whether an element is shown.
#[derive(Debug, Clone, Copy, PartialEq, Eq, Structural, Default)]
pub enum Visibility {
    /// Shown.
    #[default]
    Visible,
    /// Hidden and taking no space.
    Collapsed,
}

/// An ARGB color.
#[derive(Debug, Clone, Copy, PartialEq, Eq, Structural, Default)]
pub struct XamlColor {
    /// Alpha.
    pub a: u8,
    /// Red.
    pub r: u8,
    /// Green.
    pub g: u8,
    /// Blue.
    pub b: u8,
}

impl XamlColor {
    /// A color from its four components.
    pub fn argb(a: u8, r: u8, g: u8, b: u8) -> (c: XamlColor)
        ensures
            c == (XamlColor { a, r, g, b }),
    {
        XamlColor { a, r, g, b }
    }

    /// A fully opaque color from its red, green and blue components.
    pub fn rgb(r: u8, g: u8, b: u8) -> (c: XamlColor)
        ensures
            c == (XamlColor { a: 255, r, g, b }),
    {
        XamlColor { a: 255, r, g, b }
    }

    /// A color from a value written 0xAARRGGBB.
    pub fn from_argb_hex(hex: u32) -> (c: XamlColor)
        ensures
            c.a == hex / 0x100_0000,
            c.r == (hex / 0x1_0000) % 0x100,
            c.g == (hex / 0x100) % 0x100,
            c.b == hex % 0x100,
    {
        XamlColor {
            a: (hex / 0x100_0000) as u8,
            r: ((hex / 0x1_0000) % 0x100) as u8,
            g: ((hex / 0x100) % 0x100) as u8,
            b: (hex % 0x100) as u8,
        }
    }

    /// A fully opaque color from a value written 0xRRGGBB; higher bits are ignored.
    pub fn from_rgb_hex(hex: u32) -> (c: XamlColor)
        ensures
            c.a == 255,
            c.r == (hex / 0x1_0000) % 0x100,
            c.g == (hex / 0x100) % 0x100,
            c.b == hex % 0x100,
    {
        XamlColor {
            a: 255,
            r: ((hex / 0x1_0000) % 0x100) as u8,
            g: ((hex / 0x100) % 0x100) as u8,
            b: (hex % 0x100) as u8,
        }
    }
}

/// Font weights.
#[derive(Debug, Clone, Copy, PartialEq, Eq, Structural, Default)]
pub enum FontWeight {
    /// 100.
    Thin,
    /// 200.
    ExtraLight,
    /// 300.
    Light,
    /// 350.
    SemiLight,
    /// 400.
    #[default]
    Normal,
    /// 500.
    Medium,
    /// 600.
    SemiBold,
    /// 700.
    Bold,
    /// 800.
    ExtraBold,
    /// 900.
    Black,
    /// 950.
    ExtraBlack,
}

/// The numeric weight of each font weight.
pub open spec fn font_weight_value(w: FontWeight) -> u16 {
    match w {
        FontWeight::Thin => 100,
        FontWeight::ExtraLight => 200,
        FontWeight::Light => 300,
        FontWeight::SemiLight => 350,
        FontWeight::Normal => 400,
        FontWeight::Medium => 500,
        FontWeight::SemiBold => 600,
        FontWeight::Bold => 700,
        FontWeight::ExtraBold => 800,
        FontWeight::Black => 900,
        FontWeight::ExtraBlack => 950,
    }
}

impl FontWeight {
    /// The numeric weight (400 is normal, 700 bold).
    pub fn to_u16(self) -> (r: u16)
        ensures
            r == font_weight_value(self),
    {
        match self {
            FontWeight::Thin => 100,
            FontWeight::ExtraLight => 200,
            FontWeight::Light => 300,
            FontWeight::SemiLight => 350,
            FontWeight::Normal => 400,
            FontWeight::Medium => 500,
            FontWeight::SemiBold => 600,
            FontWeight::Bold => 700,
            FontWeight::ExtraBold => 800,
            FontWeight::Black => 900,
            FontWeight::ExtraBlack => 950,
        }
    }
}

/// Font styles.
#[derive(Debug, Clone, Copy, PartialEq, Eq, Structural, Default)]
pub enum FontStyle {
    /// Upright.
    #[default]
    Normal,
    /// Slanted.
    Oblique,
    /// Italic.
    Italic,
}

/// Text wrapping modes.
#[derive(Debug, Clone, Copy, PartialEq, Eq, Structural, Default)]
pub enum TextWrapping {
    /// No wrapping.
    #[default]
    NoWrap,
    /// Wrapping at word boundaries.
    Wrap,
    /// Wrapping that keeps whole words.
    WrapWholeWords,
}

/// Text trimming modes.
#[derive(Debug, Clone, Copy, PartialEq, Eq, Structural, Default)]
pub enum TextTrimming {
    /// No trimming.
    #[default]
    NoTrimming,
    /// Trimming at a character, with an ellipsis.
    CharacterEllipsis,
    /// Trimming at a word, with an ellipsis.
    WordEllipsis,
    /// Clipping without an ellipsis.
    Clip,
}

/// Orientation of a layout container.
#[derive(Debug, Clone, Copy, PartialEq, Eq, Structural, Default)]
pub enum Orientation {
    /// Left to right.
    #[default]
    Horizontal,
    /// Top to bottom.
    Vertical,
}

/// When a scroll bar is shown.
#[derive(Debug, Clone, Copy, PartialEq, Eq, Structural, Default)]
pub enum ScrollBarVisibility {
    /// Scrolling is disabled.
    Disabled,
    /// Shown when needed.
    #[default]
    Auto,
    /// Always shown.
    Visible,
    /// Never shown.
    Hidden,
}

} // verus!
