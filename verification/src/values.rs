//! CSS value types.
//!
//! Each CSS value domain is a closed sum type. Its `text` says, variant by
//! variant, how a value is written in CSS; `render` computes that text. Every
//! enumeration has a `Var` variant that holds a reference to a custom
//! property in place of a literal value.
use crate::number::Decimal;
use crate::text::{append_decimal, decimal_text, integer_string, integer_text, Render};
use crate::variable::CssVar;
use vstd::prelude::*;
use vstd::std_specs::convert::FromSpecImpl;

verus! {

/// A color: a named color, a keyword, a color given by its components, or
/// a reference to a custom property.
#[derive(Debug, Clone, PartialEq)]
pub enum Color {
    AliceBlue,
    AntiqueWhite,
    Aqua,
    Aquamarine,
    Azure,
    Beige,
    Bisque,
    Black,
    BlanchedAlmond,
    Blue,
    BlueViolet,
    Brown,
    BurlyWood,
    CadetBlue,
    Chartreuse,
    Chocolate,
    Coral,
    CornflowerBlue,
    Cornsilk,
    Crimson,
    Cyan,
    DarkBlue,
    DarkCyan,
    DarkGoldenRod,
    DarkGray,
    DarkGrey,
    DarkGreen,
    DarkKhaki,
    DarkMagenta,
    DarkOliveGreen,
    DarkOrange,
    DarkOrchid,
    DarkRed,
    DarkSalmon,
    DarkSeaGreen,
    DarkSlateBlue,
    DarkSlateGray,
    DarkSlateGrey,
    DarkTurquoise,
    DarkViolet,
    DeepPink,
    DeepSkyBlue,
    DimGray,
    DimGrey,
    DodgerBlue,
    FireBrick,
    FloralWhite,
    ForestGreen,
    Fuchsia,
    Gainsboro,
    GhostWhite,
    Gold,
    GoldenRod,
    Gray,
    Grey,
    Green,
    GreenYellow,
    HoneyDew,
    HotPink,
    IndianRed,
    Indigo,
    Ivory,
    Khaki,
    Lavender,
    LavenderBlush,
    LawnGreen,
    LemonChiffon,
    LightBlue,
    LightCoral,
    LightCyan,
    LightGoldenRodYellow,
    LightGray,
    LightGrey,
    LightGreen,
    LightPink,
    LightSalmon,
    LightSeaGreen,
    LightSkyBlue,
    LightSlateGray,
    LightSlateGrey,
    LightSteelBlue,
    LightYellow,
    Lime,
    LimeGreen,
    Linen,
    Magenta,
    Maroon,
    MediumAquaMarine,
    MediumBlue,
    MediumOrchid,
    MediumPurple,
    MediumSeaGreen,
    MediumSlateBlue,
    MediumSpringGreen,
    MediumTurquoise,
    MediumVioletRed,
    MidnightBlue,
    MintCream,
    MistyRose,
    Moccasin,
    NavajoWhite,
    Navy,
    OldLace,
    Olive,
    OliveDrab,
    Orange,
    OrangeRed,
    Orchid,
    PaleGoldenRod,
    PaleGreen,
    PaleTurquoise,
    PaleVioletRed,
    PapayaWhip,
    PeachPuff,
    Peru,
    Pink,
    Plum,
    PowderBlue,
    Purple,
    RebeccaPurple,
    Red,
    RosyBrown,
    RoyalBlue,
    SaddleBrown,
    Salmon,
    SandyBrown,
    SeaGreen,
    SeaShell,
    Sienna,
    Silver,
    SkyBlue,
    SlateBlue,
    SlateGray,
    SlateGrey,
    Snow,
    SpringGreen,
    SteelBlue,
    Tan,
    Teal,
    Thistle,
    Tomato,
    Turquoise,
    Violet,
    Wheat,
    White,
    WhiteSmoke,
    Yellow,
    YellowGreen,
    Transparent,
    /// Red, green and blue.
    Rgb(u8, u8, u8),
    /// Red, green, blue and alpha.
    Rgba(u8, u8, u8, Decimal),
    /// Hexadecimal digits, with or without the leading `#`.
    Hex(String),
    /// Hue, saturation in percent and lightness in percent.
    Hsl(u16, u8, u8),
    /// Hue, saturation, lightness and alpha.
    Hsla(u16, u8, u8, Decimal),
    CurrentColor,
    Inherit,
    /// A reference to a custom property.
    Var(CssVar),
}

/// The text of hexadecimal color digits: the digits as given, with `#` put in
/// front unless it is already there.
pub open spec fn hex_text(digits: Seq<char>) -> Seq<char> {
    if digits.len() > 0 && digits[0] == '#' {
        digits
    } else {
        "#"@ + digits
    }
}

/// The text `rgb(r, g, b)`.
pub open spec fn rgb_text(r: u8, g: u8, b: u8) -> Seq<char> {
    "rgb("@ + decimal_text(r as nat) + ", "@ + decimal_text(g as nat) + ", "@ + decimal_text(
        b as nat,
    ) + ")"@
}

/// The text `rgba(r, g, b, a)`.
pub open spec fn rgba_text(r: u8, g: u8, b: u8, a: Decimal) -> Seq<char> {
    "rgba("@ + decimal_text(r as nat) + ", "@ + decimal_text(g as nat) + ", "@ + decimal_text(
        b as nat,
    ) + ", "@ + a.text() + ")"@
}

/// The text `hsl(h, s%, l%)`.
pub open spec fn hsl_text(h: u16, s: u8, l: u8) -> Seq<char> {
    "hsl("@ + decimal_text(h as nat) + ", "@ + decimal_text(s as nat) + "%, "@ + decimal_text(
        l as nat,
    ) + "%)"@
}

/// The text `hsla(h, s%, l%, a)`.
pub open spec fn hsla_text(h: u16, s: u8, l: u8, a: Decimal) -> Seq<char> {
    "hsla("@ + decimal_text(h as nat) + ", "@ + decimal_text(s as nat) + "%, "@ + decimal_text(
        l as nat,
    ) + "%, "@ + a.text() + ")"@
}

/// Hexadecimal color digits with `#` in front.
pub fn hex_string(digits: &str) -> (out: String)
    ensures
        out@ == hex_text(digits@),
        out@.len() > 0 && out@[0] == '#',
{
    proof {
        reveal_strlit("#");
    }
    if digits.unicode_len() > 0 && digits.get_char(0) == '#' {
        String::from_str(digits)
    } else {
        let mut out = String::from_str("#");
        out.append(digits);
        out
    }
}

/// The text `rgb(r, g, b)`.
pub fn rgb_string(r: u8, g: u8, b: u8) -> (out: String)
    ensures
        out@ == rgb_text(r, g, b),
{
    let mut out = String::from_str("rgb(");
    append_decimal(&mut out, r as u128);
    out.append(", ");
    append_decimal(&mut out, g as u128);
    out.append(", ");
    append_decimal(&mut out, b as u128);
    out.append(")");
    out
}

/// The text `rgba(r, g, b, a)`.
pub fn rgba_string(r: u8, g: u8, b: u8, a: &Decimal) -> (out: String)
    ensures
        out@ == rgba_text(r, g, b, *a),
{
    let mut out = String::from_str("rgba(");
    append_decimal(&mut out, r as u128);
    out.append(", ");
    append_decimal(&mut out, g as u128);
    out.append(", ");
    append_decimal(&mut out, b as u128);
    out.append(", ");
    out.append(a.render().as_str());
    out.append(")");
    out
}

/// The text `hsl(h, s%, l%)`.
pub fn hsl_string(h: u16, s: u8, l: u8) -> (out: String)
    ensures
        out@ == hsl_text(h, s, l),
{
    let mut out = String::from_str("hsl(");
    append_decimal(&mut out, h as u128);
    out.append(", ");
    append_decimal(&mut out, s as u128);
    out.append("%, ");
    append_decimal(&mut out, l as u128);
    out.append("%)");
    out
}

/// The text `hsla(h, s%, l%, a)`.
pub fn hsla_string(h: u16, s: u8, l: u8, a: &Decimal) -> (out: String)
    ensures
        out@ == hsla_text(h, s, l, *a),
{
    let mut out = String::from_str("hsla(");
    append_decimal(&mut out, h as u128);
    out.append(", ");
    append_decimal(&mut out, s as u128);
    out.append("%, ");
    append_decimal(&mut out, l as u128);
    out.append("%, ");
    out.append(a.render().as_str());
    out.append(")");
    out
}

impl Render for Color {
    open spec fn text(&self) -> Seq<char> {
        match self {
            Color::AliceBlue => "aliceblue"@,
            Color::AntiqueWhite => "antiquewhite"@,
            Color::Aqua => "aqua"@,
            Color::Aquamarine => "aquamarine"@,
            Color::Azure => "azure"@,
            Color::Beige => "beige"@,
            Color::Bisque => "bisque"@,
            Color::Black => "black"@,
            Color::BlanchedAlmond => "blanchedalmond"@,
            Color::Blue => "blue"@,
            Color::BlueViolet => "blueviolet"@,
            Color::Brown => "brown"@,
            Color::BurlyWood => "burlywood"@,
            Color::CadetBlue => "cadetblue"@,
            Color::Chartreuse => "chartreuse"@,
            Color::Chocolate => "chocolate"@,
            Color::Coral => "coral"@,
            Color::CornflowerBlue => "cornflowerblue"@,
            Color::Cornsilk => "cornsilk"@,
            Color::Crimson => "crimson"@,
            Color::Cyan => "cyan"@,
            Color::DarkBlue => "darkblue"@,
            Color::DarkCyan => "darkcyan"@,
            Color::DarkGoldenRod => "darkgoldenrod"@,
            Color::DarkGray => "darkgray"@,
            Color::DarkGrey => "darkgrey"@,
            Color::DarkGreen => "darkgreen"@,
            Color::DarkKhaki => "darkkhaki"@,
            Color::DarkMagenta => "darkmagenta"@,
            Color::DarkOliveGreen => "darkolivegreen"@,
            Color::DarkOrange => "darkorange"@,
            Color::DarkOrchid => "darkorchid"@,
            Color::DarkRed => "darkred"@,
            Color::DarkSalmon => "darksalmon"@,
            Color::DarkSeaGreen => "darkseagreen"@,
            Color::DarkSlateBlue => "darkslateblue"@,
            Color::DarkSlateGray => "darkslategray"@,
            Color::DarkSlateGrey => "darkslategrey"@,
            Color::DarkTurquoise => "darkturquoise"@,
            Color::DarkViolet => "darkviolet"@,
            Color::DeepPink => "deeppink"@,
            Color::DeepSkyBlue => "deepskyblue"@,
            Color::DimGray => "dimgray"@,
            Color::DimGrey => "dimgrey"@,
            Color::DodgerBlue => "dodgerblue"@,
            Color::FireBrick => "firebrick"@,
            Color::FloralWhite => "floralwhite"@,
            Color::ForestGreen => "forestgreen"@,
            Color::Fuchsia => "fuchsia"@,
            Color::Gainsboro => "gainsboro"@,
            Color::GhostWhite => "ghostwhite"@,
            Color::Gold => "gold"@,
            Color::GoldenRod => "goldenrod"@,
            Color::Gray => "gray"@,
            Color::Grey => "grey"@,
            Color::Green => "green"@,
            Color::GreenYellow => "greenyellow"@,
            Color::HoneyDew => "honeydew"@,
            Color::HotPink => "hotpink"@,
            Color::IndianRed => "indianred"@,
            Color::Indigo => "indigo"@,
            Color::Ivory => "ivory"@,
            Color::Khaki => "khaki"@,
            Color::Lavender => "lavender"@,
            Color::LavenderBlush => "lavenderblush"@,
            Color::LawnGreen => "lawngreen"@,
            Color::LemonChiffon => "lemonchiffon"@,
            Color::LightBlue => "lightblue"@,
            Color::LightCoral => "lightcoral"@,
            Color::LightCyan => "lightcyan"@,
            Color::LightGoldenRodYellow => "lightgoldenrodyellow"@,
            Color::LightGray => "lightgray"@,
            Color::LightGrey => "lightgrey"@,
            Color::LightGreen => "lightgreen"@,
            Color::LightPink => "lightpink"@,
            Color::LightSalmon => "lightsalmon"@,
            Color::LightSeaGreen => "lightseagreen"@,
            Color::LightSkyBlue => "lightskyblue"@,
            Color::LightSlateGray => "lightslategray"@,
            Color::LightSlateGrey => "lightslategrey"@,
            Color::LightSteelBlue => "lightsteelblue"@,
            Color::LightYellow => "lightyellow"@,
            Color::Lime => "lime"@,
            Color::LimeGreen => "limegreen"@,
            Color::Linen => "linen"@,
            Color::Magenta => "magenta"@,
            Color::Maroon => "maroon"@,
            Color::MediumAquaMarine => "mediumaquamarine"@,
            Color::MediumBlue => "mediumblue"@,
            Color::MediumOrchid => "mediumorchid"@,
            Color::MediumPurple => "mediumpurple"@,
            Color::MediumSeaGreen => "mediumseagreen"@,
            Color::MediumSlateBlue => "mediumslateblue"@,
            Color::MediumSpringGreen => "mediumspringgreen"@,
            Color::MediumTurquoise => "mediumturquoise"@,
            Color::MediumVioletRed => "mediumvioletred"@,
            Color::MidnightBlue => "midnightblue"@,
            Color::MintCream => "mintcream"@,
            Color::MistyRose => "mistyrose"@,
            Color::Moccasin => "moccasin"@,
            Color::NavajoWhite => "navajowhite"@,
            Color::Navy => "navy"@,
            Color::OldLace => "oldlace"@,
            Color::Olive => "olive"@,
            Color::OliveDrab => "olivedrab"@,
            Color::Orange => "orange"@,
            Color::OrangeRed => "orangered"@,
            Color::Orchid => "orchid"@,
            Color::PaleGoldenRod => "palegoldenrod"@,
            Color::PaleGreen => "palegreen"@,
            Color::PaleTurquoise => "paleturquoise"@,
            Color::PaleVioletRed => "palevioletred"@,
            Color::PapayaWhip => "papayawhip"@,
            Color::PeachPuff => "peachpuff"@,
            Color::Peru => "peru"@,
            Color::Pink => "pink"@,
            Color::Plum => "plum"@,
            Color::PowderBlue => "powderblue"@,
            Color::Purple => "purple"@,
            Color::RebeccaPurple => "rebeccapurple"@,
            Color::Red => "red"@,
            Color::RosyBrown => "rosybrown"@,
            Color::RoyalBlue => "royalblue"@,
            Color::SaddleBrown => "saddlebrown"@,
            Color::Salmon => "salmon"@,
            Color::SandyBrown => "sandybrown"@,
            Color::SeaGreen => "seagreen"@,
            Color::SeaShell => "seashell"@,
            Color::Sienna => "sienna"@,
            Color::Silver => "silver"@,
            Color::SkyBlue => "skyblue"@,
            Color::SlateBlue => "slateblue"@,
            Color::SlateGray => "slategray"@,
            Color::SlateGrey => "slategrey"@,
            Color::Snow => "snow"@,
            Color::SpringGreen => "springgreen"@,
            Color::SteelBlue => "steelblue"@,
            Color::Tan => "tan"@,
            Color::Teal => "teal"@,
            Color::Thistle => "thistle"@,
            Color::Tomato => "tomato"@,
            Color::Turquoise => "turquoise"@,
            Color::Violet => "violet"@,
            Color::Wheat => "wheat"@,
            Color::White => "white"@,
            Color::WhiteSmoke => "whitesmoke"@,
            Color::Yellow => "yellow"@,
            Color::YellowGreen => "yellowgreen"@,
            Color::Transparent => "transparent"@,
            Color::CurrentColor => "currentColor"@,
            Color::Inherit => "inherit"@,
            Color::Rgb(r, g, b) => rgb_text(*r, *g, *b),
            Color::Rgba(r, g, b, a) => rgba_text(*r, *g, *b, *a),
            Color::Hex(digits) => hex_text(digits@),
            Color::Hsl(h, s, l) => hsl_text(*h, *s, *l),
            Color::Hsla(h, s, l, a) => hsla_text(*h, *s, *l, *a),
            Color::Var(v) => v.text(),
        }
    }

    fn render(&self) -> (out: String) {
        match self {
            Color::AliceBlue => String::from_str("aliceblue"),
            Color::AntiqueWhite => String::from_str("antiquewhite"),
            Color::Aqua => String::from_str("aqua"),
            Color::Aquamarine => String::from_str("aquamarine"),
            Color::Azure => String::from_str("azure"),
            Color::Beige => String::from_str("beige"),
            Color::Bisque => String::from_str("bisque"),
            Color::Black => String::from_str("black"),
            Color::BlanchedAlmond => String::from_str("blanchedalmond"),
            Color::Blue => String::from_str("blue"),
            Color::BlueViolet => String::from_str("blueviolet"),
            Color::Brown => String::from_str("brown"),
            Color::BurlyWood => String::from_str("burlywood"),
            Color::CadetBlue => String::from_str("cadetblue"),
            Color::Chartreuse => String::from_str("chartreuse"),
            Color::Chocolate => String::from_str("chocolate"),
            Color::Coral => String::from_str("coral"),
            Color::CornflowerBlue => String::from_str("cornflowerblue"),
            Color::Cornsilk => String::from_str("cornsilk"),
            Color::Crimson => String::from_str("crimson"),
            Color::Cyan => String::from_str("cyan"),
            Color::DarkBlue => String::from_str("darkblue"),
            Color::DarkCyan => String::from_str("darkcyan"),
            Color::DarkGoldenRod => String::from_str("darkgoldenrod"),
            Color::DarkGray => String::from_str("darkgray"),
            Color::DarkGrey => String::from_str("darkgrey"),
            Color::DarkGreen => String::from_str("darkgreen"),
            Color::DarkKhaki => String::from_str("darkkhaki"),
            Color::DarkMagenta => String::from_str("darkmagenta"),
            Color::DarkOliveGreen => String::from_str("darkolivegreen"),
            Color::DarkOrange => String::from_str("darkorange"),
            Color::DarkOrchid => String::from_str("darkorchid"),
            Color::DarkRed => String::from_str("darkred"),
            Color::DarkSalmon => String::from_str("darksalmon"),
            Color::DarkSeaGreen => String::from_str("darkseagreen"),
            Color::DarkSlateBlue => String::from_str("darkslateblue"),
            Color::DarkSlateGray => String::from_str("darkslategray"),
            Color::DarkSlateGrey => String::from_str("darkslategrey"),
            Color::DarkTurquoise => String::from_str("darkturquoise"),
            Color::DarkViolet => String::from_str("darkviolet"),
            Color::DeepPink => String::from_str("deeppink"),
            Color::DeepSkyBlue => String::from_str("deepskyblue"),
            Color::DimGray => String::from_str("dimgray"),
            Color::DimGrey => String::from_str("dimgrey"),
            Color::DodgerBlue => String::from_str("dodgerblue"),
            Color::FireBrick => String::from_str("firebrick"),
            Color::FloralWhite => String::from_str("floralwhite"),
            Color::ForestGreen => String::from_str("forestgreen"),
            Color::Fuchsia => String::from_str("fuchsia"),
            Color::Gainsboro => String::from_str("gainsboro"),
            Color::GhostWhite => String::from_str("ghostwhite"),
            Color::Gold => String::from_str("gold"),
            Color::GoldenRod => String::from_str("goldenrod"),
            Color::Gray => String::from_str("gray"),
            Color::Grey => String::from_str("grey"),
            Color::Green => String::from_str("green"),
            Color::GreenYellow => String::from_str("greenyellow"),
            Color::HoneyDew => String::from_str("honeydew"),
            Color::HotPink => String::from_str("hotpink"),
            Color::IndianRed => String::from_str("indianred"),
            Color::Indigo => String::from_str("indigo"),
            Color::Ivory => String::from_str("ivory"),
            Color::Khaki => String::from_str("khaki"),
            Color::Lavender => String::from_str("lavender"),
            Color::LavenderBlush => String::from_str("lavenderblush"),
            Color::LawnGreen => String::from_str("lawngreen"),
            Color::LemonChiffon => String::from_str("lemonchiffon"),
            Color::LightBlue => String::from_str("lightblue"),
            Color::LightCoral => String::from_str("lightcoral"),
            Color::LightCyan => String::from_str("lightcyan"),
            Color::LightGoldenRodYellow => String::from_str("lightgoldenrodyellow"),
            Color::LightGray => String::from_str("lightgray"),
            Color::LightGrey => String::from_str("lightgrey"),
            Color::LightGreen => String::from_str("lightgreen"),
            Color::LightPink => String::from_str("lightpink"),
            Color::LightSalmon => String::from_str("lightsalmon"),
            Color::LightSeaGreen => String::from_str("lightseagreen"),
            Color::LightSkyBlue => String::from_str("lightskyblue"),
            Color::LightSlateGray => String::from_str("lightslategray"),
            Color::LightSlateGrey => String::from_str("lightslategrey"),
            Color::LightSteelBlue => String::from_str("lightsteelblue"),
            Color::LightYellow => String::from_str("lightyellow"),
            Color::Lime => String::from_str("lime"),
            Color::LimeGreen => String::from_str("limegreen"),
            Color::Linen => String::from_str("linen"),
            Color::Magenta => String::from_str("magenta"),
            Color::Maroon => String::from_str("maroon"),
            Color::MediumAquaMarine => String::from_str("mediumaquamarine"),
            Color::MediumBlue => String::from_str("mediumblue"),
            Color::MediumOrchid => String::from_str("mediumorchid"),
            Color::MediumPurple => String::from_str("mediumpurple"),
            Color::MediumSeaGreen => String::from_str("mediumseagreen"),
            Color::MediumSlateBlue => String::from_str("mediumslateblue"),
            Color::MediumSpringGreen => String::from_str("mediumspringgreen"),
            Color::MediumTurquoise => String::from_str("mediumturquoise"),
            Color::MediumVioletRed => String::from_str("mediumvioletred"),
            Color::MidnightBlue => String::from_str("midnightblue"),
            Color::MintCream => String::from_str("mintcream"),
            Color::MistyRose => String::from_str("mistyrose"),
            Color::Moccasin => String::from_str("moccasin"),
            Color::NavajoWhite => String::from_str("navajowhite"),
            Color::Navy => String::from_str("navy"),
            Color::OldLace => String::from_str("oldlace"),
            Color::Olive => String::from_str("olive"),
            Color::OliveDrab => String::from_str("olivedrab"),
            Color::Orange => String::from_str("orange"),
            Color::OrangeRed => String::from_str("orangered"),
            Color::Orchid => String::from_str("orchid"),
            Color::PaleGoldenRod => String::from_str("palegoldenrod"),
            Color::PaleGreen => String::from_str("palegreen"),
            Color::PaleTurquoise => String::from_str("paleturquoise"),
            Color::PaleVioletRed => String::from_str("palevioletred"),
            Color::PapayaWhip => String::from_str("papayawhip"),
            Color::PeachPuff => String::from_str("peachpuff"),
            Color::Peru => String::from_str("peru"),
            Color::Pink => String::from_str("pink"),
            Color::Plum => String::from_str("plum"),
            Color::PowderBlue => String::from_str("powderblue"),
            Color::Purple => String::from_str("purple"),
            Color::RebeccaPurple => String::from_str("rebeccapurple"),
            Color::Red => String::from_str("red"),
            Color::RosyBrown => String::from_str("rosybrown"),
            Color::RoyalBlue => String::from_str("royalblue"),
            Color::SaddleBrown => String::from_str("saddlebrown"),
            Color::Salmon => String::from_str("salmon"),
            Color::SandyBrown => String::from_str("sandybrown"),
            Color::SeaGreen => String::from_str("seagreen"),
            Color::SeaShell => String::from_str("seashell"),
            Color::Sienna => String::from_str("sienna"),
            Color::Silver => String::from_str("silver"),
            Color::SkyBlue => String::from_str("skyblue"),
            Color::SlateBlue => String::from_str("slateblue"),
            Color::SlateGray => String::from_str("slategray"),
            Color::SlateGrey => String::from_str("slategrey"),
            Color::Snow => String::from_str("snow"),
            Color::SpringGreen => String::from_str("springgreen"),
            Color::SteelBlue => String::from_str("steelblue"),
            Color::Tan => String::from_str("tan"),
            Color::Teal => String::from_str("teal"),
            Color::Thistle => String::from_str("thistle"),
            Color::Tomato => String::from_str("tomato"),
            Color::Turquoise => String::from_str("turquoise"),
            Color::Violet => String::from_str("violet"),
            Color::Wheat => String::from_str("wheat"),
            Color::White => String::from_str("white"),
            Color::WhiteSmoke => String::from_str("whitesmoke"),
            Color::Yellow => String::from_str("yellow"),
            Color::YellowGreen => String::from_str("yellowgreen"),
            Color::Transparent => String::from_str("transparent"),
            Color::CurrentColor => String::from_str("currentColor"),
            Color::Inherit => String::from_str("inherit"),
            Color::Rgb(r, g, b) => rgb_string(*r, *g, *b),
            Color::Rgba(r, g, b, a) => rgba_string(*r, *g, *b, a),
            Color::Hex(digits) => hex_string(digits.as_str()),
            Color::Hsl(h, s, l) => hsl_string(*h, *s, *l),
            Color::Hsla(h, s, l, a) => hsla_string(*h, *s, *l, a),
            Color::Var(v) => v.render(),
        }
    }
}
/// A length or size.
#[derive(Debug, Clone, PartialEq)]
pub enum Size {
    /// The length zero, written without a unit.
    Zero,
    /// Pixels.
    Px(u32),
    /// A percentage of the containing element.
    Percent(Decimal),
    /// Multiples of the element's font size.
    Em(Decimal),
    /// Multiples of the root element's font size.
    Rem(Decimal),
    /// Hundredths of the viewport's width.
    Vw(Decimal),
    /// Hundredths of the viewport's height.
    Vh(Decimal),
    /// Left to the browser.
    Auto,
    /// A reference to a custom property.
    Var(CssVar),
}

/// A number followed by its unit.
pub open spec fn with_unit(number: Seq<char>, unit: Seq<char>) -> Seq<char> {
    number + unit
}

/// The text of `amount` followed by `unit`.
pub fn unit_string(amount: &Decimal, unit: &str) -> (out: String)
    ensures
        out@ == with_unit(amount.text(), unit@),
{
    let mut out = amount.render();
    out.append(unit);
    out
}

/// The text of a number of pixels.
pub fn px_string(pixels: u32) -> (out: String)
    ensures
        out@ == with_unit(decimal_text(pixels as nat), "px"@),
{
    let mut out = String::new();
    append_decimal(&mut out, pixels as u128);
    out.append("px");
    assert(out@ =~= with_unit(decimal_text(pixels as nat), "px"@));
    out
}

/// The text `calc(expression)`, the expression taken as it is.
pub open spec fn calc_text(expression: Seq<char>) -> Seq<char> {
    "calc("@ + expression + ")"@
}

/// The text `calc(expression)`.
pub fn calc_string(expression: &str) -> (out: String)
    ensures
        out@ == calc_text(expression@),
{
    let mut out = String::from_str("calc(");
    out.append(expression);
    out.append(")");
    out
}

impl Render for Size {
    open spec fn text(&self) -> Seq<char> {
        match self {
            Size::Zero => "0"@,
            Size::Px(n) => with_unit(decimal_text(*n as nat), "px"@),
            Size::Percent(d) => with_unit(d.text(), "%"@),
            Size::Em(d) => with_unit(d.text(), "em"@),
            Size::Rem(d) => with_unit(d.text(), "rem"@),
            Size::Vw(d) => with_unit(d.text(), "vw"@),
            Size::Vh(d) => with_unit(d.text(), "vh"@),
            Size::Auto => "auto"@,
            Size::Var(v) => v.text(),
        }
    }

    fn render(&self) -> (out: String) {
        match self {
            Size::Zero => String::from_str("0"),
            Size::Px(n) => px_string(*n),
            Size::Percent(d) => unit_string(d, "%"),
            Size::Em(d) => unit_string(d, "em"),
            Size::Rem(d) => unit_string(d, "rem"),
            Size::Vw(d) => unit_string(d, "vw"),
            Size::Vh(d) => unit_string(d, "vh"),
            Size::Auto => String::from_str("auto"),
            Size::Var(v) => v.render(),
        }
    }
}

/// A font size (`font-size`).
#[derive(Debug, Clone, PartialEq)]
pub enum FontSize {
    /// Pixels.
    Px(u32),
    /// A percentage of the parent's font size.
    Percent(Decimal),
    /// Multiples of the parent's font size.
    Em(Decimal),
    /// Multiples of the root element's font size.
    Rem(Decimal),
    Smaller,
    Larger,
    XxSmall,
    XSmall,
    Small,
    Medium,
    Large,
    XLarge,
    XxLarge,
    /// A `calc()` expression, taken as it is.
    Calc(String),
    /// A reference to a custom property.
    Var(CssVar),
}

impl Render for FontSize {
    open spec fn text(&self) -> Seq<char> {
        match self {
            FontSize::Px(n) => with_unit(decimal_text(*n as nat), "px"@),
            FontSize::Percent(d) => with_unit(d.text(), "%"@),
            FontSize::Em(d) => with_unit(d.text(), "em"@),
            FontSize::Rem(d) => with_unit(d.text(), "rem"@),
            FontSize::Smaller => "smaller"@,
            FontSize::Larger => "larger"@,
            FontSize::XxSmall => "xx-small"@,
            FontSize::XSmall => "x-small"@,
            FontSize::Small => "small"@,
            FontSize::Medium => "medium"@,
            FontSize::Large => "large"@,
            FontSize::XLarge => "x-large"@,
            FontSize::XxLarge => "xx-large"@,
            FontSize::Calc(expression) => calc_text(expression@),
            FontSize::Var(v) => v.text(),
        }
    }

    fn render(&self) -> (out: String) {
        match self {
            FontSize::Px(n) => px_string(*n),
            FontSize::Percent(d) => unit_string(d, "%"),
            FontSize::Em(d) => unit_string(d, "em"),
            FontSize::Rem(d) => unit_string(d, "rem"),
            FontSize::Smaller => String::from_str("smaller"),
            FontSize::Larger => String::from_str("larger"),
            FontSize::XxSmall => String::from_str("xx-small"),
            FontSize::XSmall => String::from_str("x-small"),
            FontSize::Small => String::from_str("small"),
            FontSize::Medium => String::from_str("medium"),
            FontSize::Large => String::from_str("large"),
            FontSize::XLarge => String::from_str("x-large"),
            FontSize::XxLarge => String::from_str("xx-large"),
            FontSize::Calc(expression) => calc_string(expression.as_str()),
            FontSize::Var(v) => v.render(),
        }
    }
}

/// A line height (`line-height`).
#[derive(Debug, Clone, PartialEq)]
pub enum LineHeight {
    Normal,
    /// A multiple of the font size, written without a unit.
    Number(Decimal),
    /// A length.
    Length(Size),
    /// A percentage of the font size.
    Percent(Decimal),
    /// A `calc()` expression, taken as it is.
    Calc(String),
    /// A reference to a custom property.
    Var(CssVar),
}

impl Render for LineHeight {
    open spec fn text(&self) -> Seq<char> {
        match self {
            LineHeight::Normal => "normal"@,
            LineHeight::Number(d) => d.text(),
            LineHeight::Length(size) => size.text(),
            LineHeight::Percent(d) => with_unit(d.text(), "%"@),
            LineHeight::Calc(expression) => calc_text(expression@),
            LineHeight::Var(v) => v.text(),
        }
    }

    fn render(&self) -> (out: String) {
        match self {
            LineHeight::Normal => String::from_str("normal"),
            LineHeight::Number(d) => d.render(),
            LineHeight::Length(size) => size.render(),
            LineHeight::Percent(d) => unit_string(d, "%"),
            LineHeight::Calc(expression) => calc_string(expression.as_str()),
            LineHeight::Var(v) => v.render(),
        }
    }
}

/// How an element takes part in layout (`display`).
#[derive(Debug, Clone, PartialEq)]
pub enum Display {
    Nothing,
    Block,
    Inline,
    InlineBlock,
    Flex,
    Grid,
    Table,
    /// A reference to a custom property.
    Var(CssVar),
}

impl Render for Display {
    open spec fn text(&self) -> Seq<char> {
        match self {
            Display::Nothing => "none"@,
            Display::Block => "block"@,
            Display::Inline => "inline"@,
            Display::InlineBlock => "inline-block"@,
            Display::Flex => "flex"@,
            Display::Grid => "grid"@,
            Display::Table => "table"@,
            Display::Var(v) => v.text(),
        }
    }

    fn render(&self) -> (out: String) {
        match self {
            Display::Nothing => String::from_str("none"),
            Display::Block => String::from_str("block"),
            Display::Inline => String::from_str("inline"),
            Display::InlineBlock => String::from_str("inline-block"),
            Display::Flex => String::from_str("flex"),
            Display::Grid => String::from_str("grid"),
            Display::Table => String::from_str("table"),
            Display::Var(v) => v.render(),
        }
    }
}
/// How an element is positioned (`position`).
#[derive(Debug, Clone, PartialEq)]
pub enum Position {
    Static,
    Relative,
    Absolute,
    Fixed,
    Sticky,
    /// A reference to a custom property.
    Var(CssVar),
}

impl Render for Position {
    open spec fn text(&self) -> Seq<char> {
        match self {
            Position::Static => "static"@,
            Position::Relative => "relative"@,
            Position::Absolute => "absolute"@,
            Position::Fixed => "fixed"@,
            Position::Sticky => "sticky"@,
            Position::Var(v) => v.text(),
        }
    }

    fn render(&self) -> (out: String) {
        match self {
            Position::Static => String::from_str("static"),
            Position::Relative => String::from_str("relative"),
            Position::Absolute => String::from_str("absolute"),
            Position::Fixed => String::from_str("fixed"),
            Position::Sticky => String::from_str("sticky"),
            Position::Var(v) => v.render(),
        }
    }
}
/// The main axis of a flex container (`flex-direction`).
#[derive(Debug, Clone, PartialEq)]
pub enum FlexDirection {
    Row,
    RowReverse,
    Column,
    ColumnReverse,
    /// A reference to a custom property.
    Var(CssVar),
}

impl Render for FlexDirection {
    open spec fn text(&self) -> Seq<char> {
        match self {
            FlexDirection::Row => "row"@,
            FlexDirection::RowReverse => "row-reverse"@,
            FlexDirection::Column => "column"@,
            FlexDirection::ColumnReverse => "column-reverse"@,
            FlexDirection::Var(v) => v.text(),
        }
    }

    fn render(&self) -> (out: String) {
        match self {
            FlexDirection::Row => String::from_str("row"),
            FlexDirection::RowReverse => String::from_str("row-reverse"),
            FlexDirection::Column => String::from_str("column"),
            FlexDirection::ColumnReverse => String::from_str("column-reverse"),
            FlexDirection::Var(v) => v.render(),
        }
    }
}
/// How items are distributed along the main axis (`justify-content`).
#[derive(Debug, Clone, PartialEq)]
pub enum JustifyContent {
    FlexStart,
    FlexEnd,
    Center,
    SpaceBetween,
    SpaceAround,
    SpaceEvenly,
    /// A reference to a custom property.
    Var(CssVar),
}

impl Render for JustifyContent {
    open spec fn text(&self) -> Seq<char> {
        match self {
            JustifyContent::FlexStart => "flex-start"@,
            JustifyContent::FlexEnd => "flex-end"@,
            JustifyContent::Center => "center"@,
            JustifyContent::SpaceBetween => "space-between"@,
            JustifyContent::SpaceAround => "space-around"@,
            JustifyContent::SpaceEvenly => "space-evenly"@,
            JustifyContent::Var(v) => v.text(),
        }
    }

    fn render(&self) -> (out: String) {
        match self {
            JustifyContent::FlexStart => String::from_str("flex-start"),
            JustifyContent::FlexEnd => String::from_str("flex-end"),
            JustifyContent::Center => String::from_str("center"),
            JustifyContent::SpaceBetween => String::from_str("space-between"),
            JustifyContent::SpaceAround => String::from_str("space-around"),
            JustifyContent::SpaceEvenly => String::from_str("space-evenly"),
            JustifyContent::Var(v) => v.render(),
        }
    }
}
/// How items are aligned on the cross axis (`align-items`).
#[derive(Debug, Clone, PartialEq)]
pub enum AlignItems {
    Normal,
    Center,
    Start,
    End,
    FlexStart,
    FlexEnd,
    SelfStart,
    SelfEnd,
    Baseline,
    FirstBaseline,
    LastBaseline,
    Stretch,
    AnchorCenter,
    SafeCenter,
    UnsafeCenter,
    Inherit,
    Initial,
    Revert,
    RevertLayer,
    Unset,
    /// A reference to a custom property.
    Var(CssVar),
}

impl Render for AlignItems {
    open spec fn text(&self) -> Seq<char> {
        match self {
            AlignItems::Normal => "normal"@,
            AlignItems::Center => "center"@,
            AlignItems::Start => "start"@,
            AlignItems::End => "end"@,
            AlignItems::FlexStart => "flex-start"@,
            AlignItems::FlexEnd => "flex-end"@,
            AlignItems::SelfStart => "self-start"@,
            AlignItems::SelfEnd => "self-end"@,
            AlignItems::Baseline => "baseline"@,
            AlignItems::FirstBaseline => "first baseline"@,
            AlignItems::LastBaseline => "last baseline"@,
            AlignItems::Stretch => "stretch"@,
            AlignItems::AnchorCenter => "anchor-center"@,
            AlignItems::SafeCenter => "safe center"@,
            AlignItems::UnsafeCenter => "unsafe center"@,
            AlignItems::Inherit => "inherit"@,
            AlignItems::Initial => "initial"@,
            AlignItems::Revert => "revert"@,
            AlignItems::RevertLayer => "revert-layer"@,
            AlignItems::Unset => "unset"@,
            AlignItems::Var(v) => v.text(),
        }
    }

    fn render(&self) -> (out: String) {
        match self {
            AlignItems::Normal => String::from_str("normal"),
            AlignItems::Center => String::from_str("center"),
            AlignItems::Start => String::from_str("start"),
            AlignItems::End => String::from_str("end"),
            AlignItems::FlexStart => String::from_str("flex-start"),
            AlignItems::FlexEnd => String::from_str("flex-end"),
            AlignItems::SelfStart => String::from_str("self-start"),
            AlignItems::SelfEnd => String::from_str("self-end"),
            AlignItems::Baseline => String::from_str("baseline"),
            AlignItems::FirstBaseline => String::from_str("first baseline"),
            AlignItems::LastBaseline => String::from_str("last baseline"),
            AlignItems::Stretch => String::from_str("stretch"),
            AlignItems::AnchorCenter => String::from_str("anchor-center"),
            AlignItems::SafeCenter => String::from_str("safe center"),
            AlignItems::UnsafeCenter => String::from_str("unsafe center"),
            AlignItems::Inherit => String::from_str("inherit"),
            AlignItems::Initial => String::from_str("initial"),
            AlignItems::Revert => String::from_str("revert"),
            AlignItems::RevertLayer => String::from_str("revert-layer"),
            AlignItems::Unset => String::from_str("unset"),
            AlignItems::Var(v) => v.render(),
        }
    }
}
/// How lines are distributed along the cross axis (`align-content`).
#[derive(Debug, Clone, PartialEq)]
pub enum AlignContent {
    Normal,
    Start,
    Center,
    End,
    FlexStart,
    FlexEnd,
    Baseline,
    FirstBaseline,
    LastBaseline,
    SpaceBetween,
    SpaceAround,
    SpaceEvenly,
    Stretch,
    SafeCenter,
    UnsafeCenter,
    Inherit,
    Initial,
    Revert,
    RevertLayer,
    Unset,
    /// A reference to a custom property.
    Var(CssVar),
}

impl Render for AlignContent {
    open spec fn text(&self) -> Seq<char> {
        match self {
            AlignContent::Normal => "normal"@,
            AlignContent::Start => "start"@,
            AlignContent::Center => "center"@,
            AlignContent::End => "end"@,
            AlignContent::FlexStart => "flex-start"@,
            AlignContent::FlexEnd => "flex-end"@,
            AlignContent::Baseline => "baseline"@,
            AlignContent::FirstBaseline => "first baseline"@,
            AlignContent::LastBaseline => "last baseline"@,
            AlignContent::SpaceBetween => "space-between"@,
            AlignContent::SpaceAround => "space-around"@,
            AlignContent::SpaceEvenly => "space-evenly"@,
            AlignContent::Stretch => "stretch"@,
            AlignContent::SafeCenter => "safe center"@,
            AlignContent::UnsafeCenter => "unsafe center"@,
            AlignContent::Inherit => "inherit"@,
            AlignContent::Initial => "initial"@,
            AlignContent::Revert => "revert"@,
            AlignContent::RevertLayer => "revert-layer"@,
            AlignContent::Unset => "unset"@,
            AlignContent::Var(v) => v.text(),
        }
    }

    fn render(&self) -> (out: String) {
        match self {
            AlignContent::Normal => String::from_str("normal"),
            AlignContent::Start => String::from_str("start"),
            AlignContent::Center => String::from_str("center"),
            AlignContent::End => String::from_str("end"),
            AlignContent::FlexStart => String::from_str("flex-start"),
            AlignContent::FlexEnd => String::from_str("flex-end"),
            AlignContent::Baseline => String::from_str("baseline"),
            AlignContent::FirstBaseline => String::from_str("first baseline"),
            AlignContent::LastBaseline => String::from_str("last baseline"),
            AlignContent::SpaceBetween => String::from_str("space-between"),
            AlignContent::SpaceAround => String::from_str("space-around"),
            AlignContent::SpaceEvenly => String::from_str("space-evenly"),
            AlignContent::Stretch => String::from_str("stretch"),
            AlignContent::SafeCenter => String::from_str("safe center"),
            AlignContent::UnsafeCenter => String::from_str("unsafe center"),
            AlignContent::Inherit => String::from_str("inherit"),
            AlignContent::Initial => String::from_str("initial"),
            AlignContent::Revert => String::from_str("revert"),
            AlignContent::RevertLayer => String::from_str("revert-layer"),
            AlignContent::Unset => String::from_str("unset"),
            AlignContent::Var(v) => v.render(),
        }
    }
}
/// The weight of a font (`font-weight`).
#[derive(Debug, Clone, PartialEq)]
pub enum FontWeight {
    Normal,
    Bold,
    Bolder,
    Lighter,
    /// A numeric weight: a multiple of 100 from 100 to 900. Any other number
    /// is written as the normal weight, 400.
    Weight(u16),
    /// A reference to a custom property.
    Var(CssVar),
}

/// Whether `weight` is a multiple of 100 from 100 to 900.
pub open spec fn is_weight(weight: u16) -> bool {
    100 <= weight <= 900 && weight % 100 == 0
}

/// The text of a numeric font weight: its numeral where it is a weight, and
/// `400` where it is not.
pub open spec fn weight_text(weight: u16) -> Seq<char> {
    if is_weight(weight) {
        decimal_text(weight as nat)
    } else {
        "400"@
    }
}

/// The text of a numeric font weight.
pub fn weight_string(weight: u16) -> (out: String)
    ensures
        out@ == weight_text(weight),
{
    if weight >= 100 && weight <= 900 && weight % 100 == 0 {
        let mut out = String::new();
        append_decimal(&mut out, weight as u128);
        assert(out@ =~= decimal_text(weight as nat));
        out
    } else {
        String::from_str("400")
    }
}

impl Render for FontWeight {
    open spec fn text(&self) -> Seq<char> {
        match self {
            FontWeight::Normal => "normal"@,
            FontWeight::Bold => "bold"@,
            FontWeight::Bolder => "bolder"@,
            FontWeight::Lighter => "lighter"@,
            FontWeight::Weight(w) => weight_text(*w),
            FontWeight::Var(v) => v.text(),
        }
    }

    fn render(&self) -> (out: String) {
        match self {
            FontWeight::Normal => String::from_str("normal"),
            FontWeight::Bold => String::from_str("bold"),
            FontWeight::Bolder => String::from_str("bolder"),
            FontWeight::Lighter => String::from_str("lighter"),
            FontWeight::Weight(w) => weight_string(*w),
            FontWeight::Var(v) => v.render(),
        }
    }
}

/// The horizontal alignment of text (`text-align`).
#[derive(Debug, Clone, PartialEq)]
pub enum TextAlign {
    Left,
    Right,
    Center,
    Justify,
    Start,
    End,
    /// A reference to a custom property.
    Var(CssVar),
}

impl Render for TextAlign {
    open spec fn text(&self) -> Seq<char> {
        match self {
            TextAlign::Left => "left"@,
            TextAlign::Right => "right"@,
            TextAlign::Center => "center"@,
            TextAlign::Justify => "justify"@,
            TextAlign::Start => "start"@,
            TextAlign::End => "end"@,
            TextAlign::Var(v) => v.text(),
        }
    }

    fn render(&self) -> (out: String) {
        match self {
            TextAlign::Left => String::from_str("left"),
            TextAlign::Right => String::from_str("right"),
            TextAlign::Center => String::from_str("center"),
            TextAlign::Justify => String::from_str("justify"),
            TextAlign::Start => String::from_str("start"),
            TextAlign::End => String::from_str("end"),
            TextAlign::Var(v) => v.render(),
        }
    }
}
/// The decoration line drawn on text (`text-decoration`).
#[derive(Debug, Clone, PartialEq)]
pub enum TextDecoration {
    Nothing,
    Underline,
    Overline,
    LineThrough,
    /// A reference to a custom property.
    Var(CssVar),
}

impl Render for TextDecoration {
    open spec fn text(&self) -> Seq<char> {
        match self {
            TextDecoration::Nothing => "none"@,
            TextDecoration::Underline => "underline"@,
            TextDecoration::Overline => "overline"@,
            TextDecoration::LineThrough => "line-through"@,
            TextDecoration::Var(v) => v.text(),
        }
    }

    fn render(&self) -> (out: String) {
        match self {
            TextDecoration::Nothing => String::from_str("none"),
            TextDecoration::Underline => String::from_str("underline"),
            TextDecoration::Overline => String::from_str("overline"),
            TextDecoration::LineThrough => String::from_str("line-through"),
            TextDecoration::Var(v) => v.render(),
        }
    }
}
/// What happens to content that does not fit (`overflow`).
#[derive(Debug, Clone, PartialEq)]
pub enum Overflow {
    Visible,
    Hidden,
    Scroll,
    Auto,
    Clip,
    /// A reference to a custom property.
    Var(CssVar),
}

impl Render for Overflow {
    open spec fn text(&self) -> Seq<char> {
        match self {
            Overflow::Visible => "visible"@,
            Overflow::Hidden => "hidden"@,
            Overflow::Scroll => "scroll"@,
            Overflow::Auto => "auto"@,
            Overflow::Clip => "clip"@,
            Overflow::Var(v) => v.text(),
        }
    }

    fn render(&self) -> (out: String) {
        match self {
            Overflow::Visible => String::from_str("visible"),
            Overflow::Hidden => String::from_str("hidden"),
            Overflow::Scroll => String::from_str("scroll"),
            Overflow::Auto => String::from_str("auto"),
            Overflow::Clip => String::from_str("clip"),
            Overflow::Var(v) => v.render(),
        }
    }
}
/// The pointer shown over an element (`cursor`).
#[derive(Debug, Clone, PartialEq)]
pub enum Cursor {
    Default,
    Pointer,
    Text,
    NotAllowed,
    Wait,
    Move,
    Grab,
    ZoomIn,
    ZoomOut,
    /// A reference to a custom property.
    Var(CssVar),
}

impl Render for Cursor {
    open spec fn text(&self) -> Seq<char> {
        match self {
            Cursor::Default => "default"@,
            Cursor::Pointer => "pointer"@,
            Cursor::Text => "text"@,
            Cursor::NotAllowed => "not-allowed"@,
            Cursor::Wait => "wait"@,
            Cursor::Move => "move"@,
            Cursor::Grab => "grab"@,
            Cursor::ZoomIn => "zoom-in"@,
            Cursor::ZoomOut => "zoom-out"@,
            Cursor::Var(v) => v.text(),
        }
    }

    fn render(&self) -> (out: String) {
        match self {
            Cursor::Default => String::from_str("default"),
            Cursor::Pointer => String::from_str("pointer"),
            Cursor::Text => String::from_str("text"),
            Cursor::NotAllowed => String::from_str("not-allowed"),
            Cursor::Wait => String::from_str("wait"),
            Cursor::Move => String::from_str("move"),
            Cursor::Grab => String::from_str("grab"),
            Cursor::ZoomIn => String::from_str("zoom-in"),
            Cursor::ZoomOut => String::from_str("zoom-out"),
            Cursor::Var(v) => v.render(),
        }
    }
}
/// Whether an element is shown (`visibility`).
#[derive(Debug, Clone, PartialEq)]
pub enum Visibility {
    Visible,
    Hidden,
    Collapse,
    /// A reference to a custom property.
    Var(CssVar),
}

impl Render for Visibility {
    open spec fn text(&self) -> Seq<char> {
        match self {
            Visibility::Visible => "visible"@,
            Visibility::Hidden => "hidden"@,
            Visibility::Collapse => "collapse"@,
            Visibility::Var(v) => v.text(),
        }
    }

    fn render(&self) -> (out: String) {
        match self {
            Visibility::Visible => String::from_str("visible"),
            Visibility::Hidden => String::from_str("hidden"),
            Visibility::Collapse => String::from_str("collapse"),
            Visibility::Var(v) => v.render(),
        }
    }
}
/// The line style of a border (`border-style`).
#[derive(Debug, Clone, PartialEq)]
pub enum BorderStyle {
    Nothing,
    Solid,
    Dashed,
    Dotted,
    Double,
    Groove,
    Ridge,
    Inset,
    Outset,
    /// A reference to a custom property.
    Var(CssVar),
}

impl Render for BorderStyle {
    open spec fn text(&self) -> Seq<char> {
        match self {
            BorderStyle::Nothing => "none"@,
            BorderStyle::Solid => "solid"@,
            BorderStyle::Dashed => "dashed"@,
            BorderStyle::Dotted => "dotted"@,
            BorderStyle::Double => "double"@,
            BorderStyle::Groove => "groove"@,
            BorderStyle::Ridge => "ridge"@,
            BorderStyle::Inset => "inset"@,
            BorderStyle::Outset => "outset"@,
            BorderStyle::Var(v) => v.text(),
        }
    }

    fn render(&self) -> (out: String) {
        match self {
            BorderStyle::Nothing => String::from_str("none"),
            BorderStyle::Solid => String::from_str("solid"),
            BorderStyle::Dashed => String::from_str("dashed"),
            BorderStyle::Dotted => String::from_str("dotted"),
            BorderStyle::Double => String::from_str("double"),
            BorderStyle::Groove => String::from_str("groove"),
            BorderStyle::Ridge => String::from_str("ridge"),
            BorderStyle::Inset => String::from_str("inset"),
            BorderStyle::Outset => String::from_str("outset"),
            BorderStyle::Var(v) => v.render(),
        }
    }
}
/// The stacking order of an element (`z-index`).
#[derive(Debug, Clone, PartialEq)]
pub enum ZIndex {
    Auto,
    /// A stacking level, which may be negative.
    Index(i32),
    /// A reference to a custom property.
    Var(CssVar),
}

impl Render for ZIndex {
    open spec fn text(&self) -> Seq<char> {
        match self {
            ZIndex::Auto => "auto"@,
            ZIndex::Index(level) => integer_text(*level as int),
            ZIndex::Var(v) => v.text(),
        }
    }

    fn render(&self) -> (out: String) {
        match self {
            ZIndex::Auto => String::from_str("auto"),
            ZIndex::Index(level) => integer_string(*level as i64),
            ZIndex::Var(v) => v.render(),
        }
    }
}

/// The text of an optional component of a shorthand value: a space and the
/// component where it is present, nothing where it is absent.
pub open spec fn optional_part<T: Render>(part: Option<T>) -> Seq<char> {
    match part {
        Some(value) => " "@ + value.text(),
        None => Seq::empty(),
    }
}

/// Appends an optional component of a shorthand value to `out`.
pub fn append_optional<T: Render>(out: &mut String, part: &Option<T>)
    ensures
        final(out)@ == old(out)@ + optional_part(*part),
{
    match part {
        Some(value) => {
            out.append(" ");
            out.append(value.render().as_str());
            assert(out@ =~= old(out)@ + optional_part(*part));
        },
        None => {
            assert(out@ =~= old(out)@ + optional_part(*part));
        },
    }
}

/// A shadow around an element's box (`box-shadow`).
#[derive(Debug, Clone, PartialEq)]
pub struct BoxShadow {
    pub h_offset: Size,
    pub v_offset: Size,
    pub blur: Option<Size>,
    pub spread: Option<Size>,
    pub color: Option<Color>,
    pub inset: bool,
}

impl Render for BoxShadow {
    /// `inset` where it is set, then the two offsets, then the blur, the
    /// spread and the color as far as they are present, in that order and
    /// with one space between neighbours.
    open spec fn text(&self) -> Seq<char> {
        let lead = if self.inset {
            "inset "@
        } else {
            Seq::empty()
        };
        lead + self.h_offset.text() + " "@ + self.v_offset.text() + optional_part(self.blur)
            + optional_part(self.spread) + optional_part(self.color)
    }

    fn render(&self) -> (out: String) {
        let mut out = String::new();
        if self.inset {
            out.append("inset ");
        }
        out.append(self.h_offset.render().as_str());
        out.append(" ");
        out.append(self.v_offset.render().as_str());
        append_optional(&mut out, &self.blur);
        append_optional(&mut out, &self.spread);
        append_optional(&mut out, &self.color);
        assert(out@ =~= self.text());
        out
    }
}

/// The text of a duration in seconds.
pub open spec fn seconds_text(duration: Decimal) -> Seq<char> {
    duration.text() + "s"@
}

/// The text of a transition: the property, the duration in seconds, then the
/// timing function and the delay in seconds as far as they are present.
pub open spec fn transition_text(
    property: Seq<char>,
    duration: Decimal,
    timing_function: Option<Seq<char>>,
    delay: Option<Decimal>,
) -> Seq<char> {
    let timing = match timing_function {
        Some(name) => " "@ + name,
        None => Seq::empty(),
    };
    let wait = match delay {
        Some(d) => " "@ + seconds_text(d),
        None => Seq::empty(),
    };
    property + " "@ + seconds_text(duration) + timing + wait
}

/// The text of a transition.
pub fn transition_string(
    property: &str,
    duration: &Decimal,
    timing_function: Option<&str>,
    delay: &Option<Decimal>,
) -> (out: String)
    ensures
        out@ == transition_text(
            property@,
            *duration,
            match timing_function {
                Some(name) => Some(name@),
                None => None,
            },
            *delay,
        ),
{
    let mut out = String::from_str(property);
    out.append(" ");
    out.append(duration.render().as_str());
    out.append("s");
    let ghost timing = match timing_function {
        Some(name) => Some(name@),
        None => None,
    };
    match timing_function {
        Some(name) => {
            out.append(" ");
            out.append(name);
        },
        None => {},
    }
    match delay {
        Some(d) => {
            out.append(" ");
            out.append(d.render().as_str());
            out.append("s");
        },
        None => {},
    }
    assert(out@ =~= transition_text(property@, *duration, timing, *delay));
    out
}

/// An animated change of a property (`transition`).
#[derive(Debug, Clone, PartialEq)]
pub struct Transition {
    pub property: String,
    pub duration: Decimal,
    pub timing_function: Option<String>,
    pub delay: Option<Decimal>,
}

impl Transition {
    /// The timing function's name as characters, where there is one.
    pub open spec fn timing_text(&self) -> Option<Seq<char>> {
        match self.timing_function {
            Some(name) => Some(name@),
            None => None,
        }
    }
}

impl Render for Transition {
    open spec fn text(&self) -> Seq<char> {
        transition_text(self.property@, self.duration, self.timing_text(), self.delay)
    }

    fn render(&self) -> (out: String) {
        let timing: Option<&str> = match &self.timing_function {
            Some(name) => Some(name.as_str()),
            None => None,
        };
        transition_string(self.property.as_str(), &self.duration, timing, &self.delay)
    }
}

impl From<CssVar> for Color {
    fn from(var: CssVar) -> (value: Color) {
        Color::Var(var)
    }
}

impl FromSpecImpl<CssVar> for Color {
    open spec fn obeys_from_spec() -> bool {
        true
    }

    open spec fn from_spec(var: CssVar) -> Color {
        Color::Var(var)
    }
}

impl From<CssVar> for Size {
    fn from(var: CssVar) -> (value: Size) {
        Size::Var(var)
    }
}

impl FromSpecImpl<CssVar> for Size {
    open spec fn obeys_from_spec() -> bool {
        true
    }

    open spec fn from_spec(var: CssVar) -> Size {
        Size::Var(var)
    }
}

impl From<CssVar> for Display {
    fn from(var: CssVar) -> (value: Display) {
        Display::Var(var)
    }
}

impl FromSpecImpl<CssVar> for Display {
    open spec fn obeys_from_spec() -> bool {
        true
    }

    open spec fn from_spec(var: CssVar) -> Display {
        Display::Var(var)
    }
}

impl From<CssVar> for Position {
    fn from(var: CssVar) -> (value: Position) {
        Position::Var(var)
    }
}

impl FromSpecImpl<CssVar> for Position {
    open spec fn obeys_from_spec() -> bool {
        true
    }

    open spec fn from_spec(var: CssVar) -> Position {
        Position::Var(var)
    }
}

impl From<CssVar> for FlexDirection {
    fn from(var: CssVar) -> (value: FlexDirection) {
        FlexDirection::Var(var)
    }
}

impl FromSpecImpl<CssVar> for FlexDirection {
    open spec fn obeys_from_spec() -> bool {
        true
    }

    open spec fn from_spec(var: CssVar) -> FlexDirection {
        FlexDirection::Var(var)
    }
}

impl From<CssVar> for JustifyContent {
    fn from(var: CssVar) -> (value: JustifyContent) {
        JustifyContent::Var(var)
    }
}

impl FromSpecImpl<CssVar> for JustifyContent {
    open spec fn obeys_from_spec() -> bool {
        true
    }

    open spec fn from_spec(var: CssVar) -> JustifyContent {
        JustifyContent::Var(var)
    }
}

impl From<CssVar> for AlignItems {
    fn from(var: CssVar) -> (value: AlignItems) {
        AlignItems::Var(var)
    }
}

impl FromSpecImpl<CssVar> for AlignItems {
    open spec fn obeys_from_spec() -> bool {
        true
    }

    open spec fn from_spec(var: CssVar) -> AlignItems {
        AlignItems::Var(var)
    }
}

impl From<CssVar> for AlignContent {
    fn from(var: CssVar) -> (value: AlignContent) {
        AlignContent::Var(var)
    }
}

impl FromSpecImpl<CssVar> for AlignContent {
    open spec fn obeys_from_spec() -> bool {
        true
    }

    open spec fn from_spec(var: CssVar) -> AlignContent {
        AlignContent::Var(var)
    }
}

impl From<CssVar> for FontWeight {
    fn from(var: CssVar) -> (value: FontWeight) {
        FontWeight::Var(var)
    }
}

impl FromSpecImpl<CssVar> for FontWeight {
    open spec fn obeys_from_spec() -> bool {
        true
    }

    open spec fn from_spec(var: CssVar) -> FontWeight {
        FontWeight::Var(var)
    }
}

impl From<CssVar> for TextAlign {
    fn from(var: CssVar) -> (value: TextAlign) {
        TextAlign::Var(var)
    }
}

impl FromSpecImpl<CssVar> for TextAlign {
    open spec fn obeys_from_spec() -> bool {
        true
    }

    open spec fn from_spec(var: CssVar) -> TextAlign {
        TextAlign::Var(var)
    }
}

impl From<CssVar> for TextDecoration {
    fn from(var: CssVar) -> (value: TextDecoration) {
        TextDecoration::Var(var)
    }
}

impl FromSpecImpl<CssVar> for TextDecoration {
    open spec fn obeys_from_spec() -> bool {
        true
    }

    open spec fn from_spec(var: CssVar) -> TextDecoration {
        TextDecoration::Var(var)
    }
}

impl From<CssVar> for Overflow {
    fn from(var: CssVar) -> (value: Overflow) {
        Overflow::Var(var)
    }
}

impl FromSpecImpl<CssVar> for Overflow {
    open spec fn obeys_from_spec() -> bool {
        true
    }

    open spec fn from_spec(var: CssVar) -> Overflow {
        Overflow::Var(var)
    }
}

impl From<CssVar> for Cursor {
    fn from(var: CssVar) -> (value: Cursor) {
        Cursor::Var(var)
    }
}

impl FromSpecImpl<CssVar> for Cursor {
    open spec fn obeys_from_spec() -> bool {
        true
    }

    open spec fn from_spec(var: CssVar) -> Cursor {
        Cursor::Var(var)
    }
}

impl From<CssVar> for Visibility {
    fn from(var: CssVar) -> (value: Visibility) {
        Visibility::Var(var)
    }
}

impl FromSpecImpl<CssVar> for Visibility {
    open spec fn obeys_from_spec() -> bool {
        true
    }

    open spec fn from_spec(var: CssVar) -> Visibility {
        Visibility::Var(var)
    }
}

impl From<CssVar> for BorderStyle {
    fn from(var: CssVar) -> (value: BorderStyle) {
        BorderStyle::Var(var)
    }
}

impl FromSpecImpl<CssVar> for BorderStyle {
    open spec fn obeys_from_spec() -> bool {
        true
    }

    open spec fn from_spec(var: CssVar) -> BorderStyle {
        BorderStyle::Var(var)
    }
}

impl From<CssVar> for ZIndex {
    fn from(var: CssVar) -> (value: ZIndex) {
        ZIndex::Var(var)
    }
}

impl FromSpecImpl<CssVar> for ZIndex {
    open spec fn obeys_from_spec() -> bool {
        true
    }

    open spec fn from_spec(var: CssVar) -> ZIndex {
        ZIndex::Var(var)
    }
}

impl From<CssVar> for FontSize {
    fn from(var: CssVar) -> (value: FontSize) {
        FontSize::Var(var)
    }
}

impl FromSpecImpl<CssVar> for FontSize {
    open spec fn obeys_from_spec() -> bool {
        true
    }

    open spec fn from_spec(var: CssVar) -> FontSize {
        FontSize::Var(var)
    }
}

impl From<CssVar> for LineHeight {
    fn from(var: CssVar) -> (value: LineHeight) {
        LineHeight::Var(var)
    }
}

impl FromSpecImpl<CssVar> for LineHeight {
    open spec fn obeys_from_spec() -> bool {
        true
    }

    open spec fn from_spec(var: CssVar) -> LineHeight {
        LineHeight::Var(var)
    }
}

} // verus!
