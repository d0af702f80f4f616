use mew_css::number::Decimal;
use mew_css::text::Render;
use mew_css::values::{
    AlignContent, AlignItems, BorderStyle, BoxShadow, Color, Cursor, Display, FlexDirection,
    FontSize, FontWeight, JustifyContent, LineHeight, Overflow, Position, Size, TextAlign,
    TextDecoration, Transition, Visibility, ZIndex,
};
use mew_css::variable::var;

fn half() -> Decimal {
    Decimal::new(false, 5, 1)
}

#[test]
fn color_keywords() {
    let table = [
        (Color::AliceBlue, "aliceblue"),
        (Color::AntiqueWhite, "antiquewhite"),
        (Color::Aqua, "aqua"),
        (Color::Aquamarine, "aquamarine"),
        (Color::Azure, "azure"),
        (Color::Beige, "beige"),
        (Color::Bisque, "bisque"),
        (Color::Black, "black"),
        (Color::BlanchedAlmond, "blanchedalmond"),
        (Color::Blue, "blue"),
        (Color::BlueViolet, "blueviolet"),
        (Color::Brown, "brown"),
        (Color::BurlyWood, "burlywood"),
        (Color::CadetBlue, "cadetblue"),
        (Color::Chartreuse, "chartreuse"),
        (Color::Chocolate, "chocolate"),
        (Color::Coral, "coral"),
        (Color::CornflowerBlue, "cornflowerblue"),
        (Color::Cornsilk, "cornsilk"),
        (Color::Crimson, "crimson"),
        (Color::Cyan, "cyan"),
        (Color::DarkBlue, "darkblue"),
        (Color::DarkCyan, "darkcyan"),
        (Color::DarkGoldenRod, "darkgoldenrod"),
        (Color::DarkGray, "darkgray"),
        (Color::DarkGrey, "darkgrey"),
        (Color::DarkGreen, "darkgreen"),
        (Color::DarkKhaki, "darkkhaki"),
        (Color::DarkMagenta, "darkmagenta"),
        (Color::DarkOliveGreen, "darkolivegreen"),
        (Color::DarkOrange, "darkorange"),
        (Color::DarkOrchid, "darkorchid"),
        (Color::DarkRed, "darkred"),
        (Color::DarkSalmon, "darksalmon"),
        (Color::DarkSeaGreen, "darkseagreen"),
        (Color::DarkSlateBlue, "darkslateblue"),
        (Color::DarkSlateGray, "darkslategray"),
        (Color::DarkSlateGrey, "darkslategrey"),
        (Color::DarkTurquoise, "darkturquoise"),
        (Color::DarkViolet, "darkviolet"),
        (Color::DeepPink, "deeppink"),
        (Color::DeepSkyBlue, "deepskyblue"),
        (Color::DimGray, "dimgray"),
        (Color::DimGrey, "dimgrey"),
        (Color::DodgerBlue, "dodgerblue"),
        (Color::FireBrick, "firebrick"),
        (Color::FloralWhite, "floralwhite"),
        (Color::ForestGreen, "forestgreen"),
        (Color::Fuchsia, "fuchsia"),
        (Color::Gainsboro, "gainsboro"),
        (Color::GhostWhite, "ghostwhite"),
        (Color::Gold, "gold"),
        (Color::GoldenRod, "goldenrod"),
        (Color::Gray, "gray"),
        (Color::Grey, "grey"),
        (Color::Green, "green"),
        (Color::GreenYellow, "greenyellow"),
        (Color::HoneyDew, "honeydew"),
        (Color::HotPink, "hotpink"),
        (Color::IndianRed, "indianred"),
        (Color::Indigo, "indigo"),
        (Color::Ivory, "ivory"),
        (Color::Khaki, "khaki"),
        (Color::Lavender, "lavender"),
        (Color::LavenderBlush, "lavenderblush"),
        (Color::LawnGreen, "lawngreen"),
        (Color::LemonChiffon, "lemonchiffon"),
        (Color::LightBlue, "lightblue"),
        (Color::LightCoral, "lightcoral"),
        (Color::LightCyan, "lightcyan"),
        (Color::LightGoldenRodYellow, "lightgoldenrodyellow"),
        (Color::LightGray, "lightgray"),
        (Color::LightGrey, "lightgrey"),
        (Color::LightGreen, "lightgreen"),
        (Color::LightPink, "lightpink"),
        (Color::LightSalmon, "lightsalmon"),
        (Color::LightSeaGreen, "lightseagreen"),
        (Color::LightSkyBlue, "lightskyblue"),
        (Color::LightSlateGray, "lightslategray"),
        (Color::LightSlateGrey, "lightslategrey"),
        (Color::LightSteelBlue, "lightsteelblue"),
        (Color::LightYellow, "lightyellow"),
        (Color::Lime, "lime"),
        (Color::LimeGreen, "limegreen"),
        (Color::Linen, "linen"),
        (Color::Magenta, "magenta"),
        (Color::Maroon, "maroon"),
        (Color::MediumAquaMarine, "mediumaquamarine"),
        (Color::MediumBlue, "mediumblue"),
        (Color::MediumOrchid, "mediumorchid"),
        (Color::MediumPurple, "mediumpurple"),
        (Color::MediumSeaGreen, "mediumseagreen"),
        (Color::MediumSlateBlue, "mediumslateblue"),
        (Color::MediumSpringGreen, "mediumspringgreen"),
        (Color::MediumTurquoise, "mediumturquoise"),
        (Color::MediumVioletRed, "mediumvioletred"),
        (Color::MidnightBlue, "midnightblue"),
        (Color::MintCream, "mintcream"),
        (Color::MistyRose, "mistyrose"),
        (Color::Moccasin, "moccasin"),
        (Color::NavajoWhite, "navajowhite"),
        (Color::Navy, "navy"),
        (Color::OldLace, "oldlace"),
        (Color::Olive, "olive"),
        (Color::OliveDrab, "olivedrab"),
        (Color::Orange, "orange"),
        (Color::OrangeRed, "orangered"),
        (Color::Orchid, "orchid"),
        (Color::PaleGoldenRod, "palegoldenrod"),
        (Color::PaleGreen, "palegreen"),
        (Color::PaleTurquoise, "paleturquoise"),
        (Color::PaleVioletRed, "palevioletred"),
        (Color::PapayaWhip, "papayawhip"),
        (Color::PeachPuff, "peachpuff"),
        (Color::Peru, "peru"),
        (Color::Pink, "pink"),
        (Color::Plum, "plum"),
        (Color::PowderBlue, "powderblue"),
        (Color::Purple, "purple"),
        (Color::RebeccaPurple, "rebeccapurple"),
        (Color::Red, "red"),
        (Color::RosyBrown, "rosybrown"),
        (Color::RoyalBlue, "royalblue"),
        (Color::SaddleBrown, "saddlebrown"),
        (Color::Salmon, "salmon"),
        (Color::SandyBrown, "sandybrown"),
        (Color::SeaGreen, "seagreen"),
        (Color::SeaShell, "seashell"),
        (Color::Sienna, "sienna"),
        (Color::Silver, "silver"),
        (Color::SkyBlue, "skyblue"),
        (Color::SlateBlue, "slateblue"),
        (Color::SlateGray, "slategray"),
        (Color::SlateGrey, "slategrey"),
        (Color::Snow, "snow"),
        (Color::SpringGreen, "springgreen"),
        (Color::SteelBlue, "steelblue"),
        (Color::Tan, "tan"),
        (Color::Teal, "teal"),
        (Color::Thistle, "thistle"),
        (Color::Tomato, "tomato"),
        (Color::Turquoise, "turquoise"),
        (Color::Violet, "violet"),
        (Color::Wheat, "wheat"),
        (Color::White, "white"),
        (Color::WhiteSmoke, "whitesmoke"),
        (Color::Yellow, "yellow"),
        (Color::YellowGreen, "yellowgreen"),
        (Color::Transparent, "transparent"),
        (Color::CurrentColor, "currentColor"),
        (Color::Inherit, "inherit"),
    ];
    assert_eq!(table.len(), 151);
    for (value, text) in table {
        assert_eq!(value.render(), text);
        assert_eq!(value.render(), value.clone().render());
    }
}

#[test]
fn display_keywords() {
    let table = [
        (Display::Nothing, "none"),
        (Display::Block, "block"),
        (Display::Inline, "inline"),
        (Display::InlineBlock, "inline-block"),
        (Display::Flex, "flex"),
        (Display::Grid, "grid"),
        (Display::Table, "table"),
    ];
    assert_eq!(table.len(), 7);
    for (value, text) in table {
        assert_eq!(value.render(), text);
        assert_eq!(value.render(), value.clone().render());
    }
}

#[test]
fn position_keywords() {
    let table = [
        (Position::Static, "static"),
        (Position::Relative, "relative"),
        (Position::Absolute, "absolute"),
        (Position::Fixed, "fixed"),
        (Position::Sticky, "sticky"),
    ];
    assert_eq!(table.len(), 5);
    for (value, text) in table {
        assert_eq!(value.render(), text);
        assert_eq!(value.render(), value.clone().render());
    }
}

#[test]
fn flex_direction_keywords() {
    let table = [
        (FlexDirection::Row, "row"),
        (FlexDirection::RowReverse, "row-reverse"),
        (FlexDirection::Column, "column"),
        (FlexDirection::ColumnReverse, "column-reverse"),
    ];
    assert_eq!(table.len(), 4);
    for (value, text) in table {
        assert_eq!(value.render(), text);
        assert_eq!(value.render(), value.clone().render());
    }
}

#[test]
fn justify_content_keywords() {
    let table = [
        (JustifyContent::FlexStart, "flex-start"),
        (JustifyContent::FlexEnd, "flex-end"),
        (JustifyContent::Center, "center"),
        (JustifyContent::SpaceBetween, "space-between"),
        (JustifyContent::SpaceAround, "space-around"),
        (JustifyContent::SpaceEvenly, "space-evenly"),
    ];
    assert_eq!(table.len(), 6);
    for (value, text) in table {
        assert_eq!(value.render(), text);
        assert_eq!(value.render(), value.clone().render());
    }
}

#[test]
fn align_items_keywords() {
    let table = [
        (AlignItems::Normal, "normal"),
        (AlignItems::Center, "center"),
        (AlignItems::Start, "start"),
        (AlignItems::End, "end"),
        (AlignItems::FlexStart, "flex-start"),
        (AlignItems::FlexEnd, "flex-end"),
        (AlignItems::SelfStart, "self-start"),
        (AlignItems::SelfEnd, "self-end"),
        (AlignItems::Baseline, "baseline"),
        (AlignItems::FirstBaseline, "first baseline"),
        (AlignItems::LastBaseline, "last baseline"),
        (AlignItems::Stretch, "stretch"),
        (AlignItems::AnchorCenter, "anchor-center"),
        (AlignItems::SafeCenter, "safe center"),
        (AlignItems::UnsafeCenter, "unsafe center"),
        (AlignItems::Inherit, "inherit"),
        (AlignItems::Initial, "initial"),
        (AlignItems::Revert, "revert"),
        (AlignItems::RevertLayer, "revert-layer"),
        (AlignItems::Unset, "unset"),
    ];
    assert_eq!(table.len(), 20);
    for (value, text) in table {
        assert_eq!(value.render(), text);
        assert_eq!(value.render(), value.clone().render());
    }
}

#[test]
fn align_content_keywords() {
    let table = [
        (AlignContent::Normal, "normal"),
        (AlignContent::Start, "start"),
        (AlignContent::Center, "center"),
        (AlignContent::End, "end"),
        (AlignContent::FlexStart, "flex-start"),
        (AlignContent::FlexEnd, "flex-end"),
        (AlignContent::Baseline, "baseline"),
        (AlignContent::FirstBaseline, "first baseline"),
        (AlignContent::LastBaseline, "last baseline"),
        (AlignContent::SpaceBetween, "space-between"),
        (AlignContent::SpaceAround, "space-around"),
        (AlignContent::SpaceEvenly, "space-evenly"),
        (AlignContent::Stretch, "stretch"),
        (AlignContent::SafeCenter, "safe center"),
        (AlignContent::UnsafeCenter, "unsafe center"),
        (AlignContent::Inherit, "inherit"),
        (AlignContent::Initial, "initial"),
        (AlignContent::Revert, "revert"),
        (AlignContent::RevertLayer, "revert-layer"),
        (AlignContent::Unset, "unset"),
    ];
    assert_eq!(table.len(), 20);
    for (value, text) in table {
        assert_eq!(value.render(), text);
        assert_eq!(value.render(), value.clone().render());
    }
}

#[test]
fn text_align_keywords() {
    let table = [
        (TextAlign::Left, "left"),
        (TextAlign::Right, "right"),
        (TextAlign::Center, "center"),
        (TextAlign::Justify, "justify"),
        (TextAlign::Start, "start"),
        (TextAlign::End, "end"),
    ];
    assert_eq!(table.len(), 6);
    for (value, text) in table {
        assert_eq!(value.render(), text);
        assert_eq!(value.render(), value.clone().render());
    }
}

#[test]
fn text_decoration_keywords() {
    let table = [
        (TextDecoration::Nothing, "none"),
        (TextDecoration::Underline, "underline"),
        (TextDecoration::Overline, "overline"),
        (TextDecoration::LineThrough, "line-through"),
    ];
    assert_eq!(table.len(), 4);
    for (value, text) in table {
        assert_eq!(value.render(), text);
        assert_eq!(value.render(), value.clone().render());
    }
}

#[test]
fn overflow_keywords() {
    let table = [
        (Overflow::Visible, "visible"),
        (Overflow::Hidden, "hidden"),
        (Overflow::Scroll, "scroll"),
        (Overflow::Auto, "auto"),
        (Overflow::Clip, "clip"),
    ];
    assert_eq!(table.len(), 5);
    for (value, text) in table {
        assert_eq!(value.render(), text);
        assert_eq!(value.render(), value.clone().render());
    }
}

#[test]
fn cursor_keywords() {
    let table = [
        (Cursor::Default, "default"),
        (Cursor::Pointer, "pointer"),
        (Cursor::Text, "text"),
        (Cursor::NotAllowed, "not-allowed"),
        (Cursor::Wait, "wait"),
        (Cursor::Move, "move"),
        (Cursor::Grab, "grab"),
        (Cursor::ZoomIn, "zoom-in"),
        (Cursor::ZoomOut, "zoom-out"),
    ];
    assert_eq!(table.len(), 9);
    for (value, text) in table {
        assert_eq!(value.render(), text);
        assert_eq!(value.render(), value.clone().render());
    }
}

#[test]
fn visibility_keywords() {
    let table = [
        (Visibility::Visible, "visible"),
        (Visibility::Hidden, "hidden"),
        (Visibility::Collapse, "collapse"),
    ];
    assert_eq!(table.len(), 3);
    for (value, text) in table {
        assert_eq!(value.render(), text);
        assert_eq!(value.render(), value.clone().render());
    }
}

#[test]
fn border_style_keywords() {
    let table = [
        (BorderStyle::Nothing, "none"),
        (BorderStyle::Solid, "solid"),
        (BorderStyle::Dashed, "dashed"),
        (BorderStyle::Dotted, "dotted"),
        (BorderStyle::Double, "double"),
        (BorderStyle::Groove, "groove"),
        (BorderStyle::Ridge, "ridge"),
        (BorderStyle::Inset, "inset"),
        (BorderStyle::Outset, "outset"),
    ];
    assert_eq!(table.len(), 9);
    for (value, text) in table {
        assert_eq!(value.render(), text);
        assert_eq!(value.render(), value.clone().render());
    }
}

#[test]
fn named_colors_are_their_names_in_lower_case() {
    for color in [Color::AliceBlue, Color::LightGoldenRodYellow, Color::RebeccaPurple, Color::Transparent, Color::Inherit] {
        assert_eq!(color.render(), format!("{:?}", color).to_lowercase());
    }
    assert_eq!(Color::CurrentColor.render(), "currentColor");
}

#[test]
fn colors_by_components() {
    assert_eq!(Color::Rgb(0, 0, 0).render(), "rgb(0, 0, 0)");
    assert_eq!(Color::Rgb(255, 128, 7).render(), "rgb(255, 128, 7)");
    assert_eq!(Color::Rgba(240, 240, 240, half()).render(), "rgba(240, 240, 240, 0.5)");
    assert_eq!(Color::Rgba(1, 2, 3, Decimal::new(false, 1, 0)).render(), "rgba(1, 2, 3, 1)");
    assert_eq!(Color::Rgba(1, 2, 3, Decimal::new(false, 0, 0)).render(), "rgba(1, 2, 3, 0)");
    assert_eq!(Color::Hsl(0, 100, 50).render(), "hsl(0, 100%, 50%)");
    assert_eq!(Color::Hsl(65535, 255, 0).render(), "hsl(65535, 255%, 0%)");
    assert_eq!(Color::Hsla(120, 100, 50, half()).render(), "hsla(120, 100%, 50%, 0.5)");
}

#[test]
fn hex_colors_get_one_hash() {
    assert_eq!(Color::Hex("ff0000".to_string()).render(), "#ff0000");
    assert_eq!(Color::Hex("#ff0000".to_string()).render(), "#ff0000");
    assert_eq!(Color::Hex("fff".to_string()).render(), "#fff");
    assert_eq!(Color::Hex("".to_string()).render(), "#");
    assert_eq!(Color::Hex("#".to_string()).render(), "#");
    assert_eq!(Color::Hex("##abc".to_string()).render(), "##abc");
    assert_eq!(Color::Hex("a#b".to_string()).render(), "#a#b");
}

#[test]
fn sizes() {
    assert_eq!(Size::Zero.render(), "0");
    assert_eq!(Size::Auto.render(), "auto");
    assert_eq!(Size::Px(0).render(), "0px");
    assert_eq!(Size::Px(16).render(), "16px");
    assert_eq!(Size::Px(u32::MAX).render(), "4294967295px");
    assert_eq!(Size::Percent(Decimal::new(false, 100, 0)).render(), "100%");
    assert_eq!(Size::Percent(Decimal::new(false, 125, 1)).render(), "12.5%");
    assert_eq!(Size::Em(half()).render(), "0.5em");
    assert_eq!(Size::Rem(Decimal::new(false, 15, 1)).render(), "1.5rem");
    assert_eq!(Size::Vw(Decimal::new(false, 50, 0)).render(), "50vw");
    assert_eq!(Size::Vh(Decimal::new(false, 100, 0)).render(), "100vh");
    assert_eq!(Size::Em(Decimal::new(true, 1, 0)).render(), "-1em");
}

#[test]
fn font_sizes() {
    let table = [
        (FontSize::Px(12), "12px"),
        (FontSize::Percent(Decimal::new(false, 120, 0)), "120%"),
        (FontSize::Em(Decimal::new(false, 12, 1)), "1.2em"),
        (FontSize::Rem(Decimal::new(false, 2, 0)), "2rem"),
        (FontSize::Smaller, "smaller"),
        (FontSize::Larger, "larger"),
        (FontSize::XxSmall, "xx-small"),
        (FontSize::XSmall, "x-small"),
        (FontSize::Small, "small"),
        (FontSize::Medium, "medium"),
        (FontSize::Large, "large"),
        (FontSize::XLarge, "x-large"),
        (FontSize::XxLarge, "xx-large"),
        (FontSize::Calc("100% + 16px".to_string()), "calc(100% + 16px)"),
        (FontSize::Calc("".to_string()), "calc()"),
    ];
    for (value, text) in table {
        assert_eq!(value.render(), text);
    }
}

#[test]
fn line_heights() {
    let table = [
        (LineHeight::Normal, "normal"),
        (LineHeight::Number(Decimal::new(false, 15, 1)), "1.5"),
        (LineHeight::Length(Size::Px(24)), "24px"),
        (LineHeight::Length(Size::Em(Decimal::new(false, 2, 0))), "2em"),
        (LineHeight::Percent(Decimal::new(false, 120, 0)), "120%"),
        (LineHeight::Calc("1em + 0.5em".to_string()), "calc(1em + 0.5em)"),
    ];
    for (value, text) in table {
        assert_eq!(value.render(), text);
    }
}

#[test]
fn font_weights() {
    let table = [
        (FontWeight::Normal, "normal"),
        (FontWeight::Bold, "bold"),
        (FontWeight::Bolder, "bolder"),
        (FontWeight::Lighter, "lighter"),
    ];
    for (value, text) in table {
        assert_eq!(value.render(), text);
    }
    for weight in [100u16, 200, 300, 400, 500, 600, 700, 800, 900] {
        assert_eq!(FontWeight::Weight(weight).render(), weight.to_string());
    }
    for weight in [0u16, 1, 99, 101, 150, 450, 901, 950, 1000, 1100, u16::MAX] {
        assert_eq!(FontWeight::Weight(weight).render(), "400");
    }
}

#[test]
fn z_indexes() {
    assert_eq!(ZIndex::Auto.render(), "auto");
    assert_eq!(ZIndex::Index(0).render(), "0");
    assert_eq!(ZIndex::Index(10).render(), "10");
    assert_eq!(ZIndex::Index(-1).render(), "-1");
    assert_eq!(ZIndex::Index(i32::MAX).render(), "2147483647");
    assert_eq!(ZIndex::Index(i32::MIN).render(), "-2147483648");
}

#[test]
fn box_shadows_write_the_components_that_are_present() {
    let plain = BoxShadow {
        h_offset: Size::Px(0),
        v_offset: Size::Px(2),
        blur: None,
        spread: None,
        color: None,
        inset: false,
    };
    assert_eq!(plain.render(), "0px 2px");
    let inset = BoxShadow { inset: true, ..plain.clone() };
    assert_eq!(inset.render(), "inset 0px 2px");
    let blurred = BoxShadow { blur: Some(Size::Px(4)), ..plain.clone() };
    assert_eq!(blurred.render(), "0px 2px 4px");
    let spread = BoxShadow { spread: Some(Size::Px(1)), ..plain.clone() };
    assert_eq!(spread.render(), "0px 2px 1px");
    let colored = BoxShadow { color: Some(Color::Red), ..plain.clone() };
    assert_eq!(colored.render(), "0px 2px red");
    let full = BoxShadow {
        h_offset: Size::Px(1),
        v_offset: Size::Em(half()),
        blur: Some(Size::Px(4)),
        spread: Some(Size::Zero),
        color: Some(Color::Rgba(0, 0, 0, Decimal::new(false, 1, 1))),
        inset: true,
    };
    assert_eq!(full.render(), "inset 1px 0.5em 4px 0 rgba(0, 0, 0, 0.1)");
}

#[test]
fn transitions_write_the_components_that_are_present() {
    let plain = Transition {
        property: "all".to_string(),
        duration: Decimal::new(false, 3, 1),
        timing_function: None,
        delay: None,
    };
    assert_eq!(plain.render(), "all 0.3s");
    let timed = Transition { timing_function: Some("ease".to_string()), ..plain.clone() };
    assert_eq!(timed.render(), "all 0.3s ease");
    let delayed = Transition { delay: Some(Decimal::new(false, 1, 0)), ..plain.clone() };
    assert_eq!(delayed.render(), "all 0.3s 1s");
    let full = Transition {
        property: "opacity".to_string(),
        duration: Decimal::new(false, 2, 0),
        timing_function: Some("ease-in-out".to_string()),
        delay: Some(half()),
    };
    assert_eq!(full.render(), "opacity 2s ease-in-out 0.5s");
}

#[test]
fn a_variable_converts_into_every_value_type() {
    let v = || var("theme");
    let text = "var(--theme)";
    assert_eq!(Color::from(v()).render(), text);
    assert_eq!(Size::from(v()).render(), text);
    assert_eq!(Display::from(v()).render(), text);
    assert_eq!(Position::from(v()).render(), text);
    assert_eq!(FlexDirection::from(v()).render(), text);
    assert_eq!(JustifyContent::from(v()).render(), text);
    assert_eq!(AlignItems::from(v()).render(), text);
    assert_eq!(AlignContent::from(v()).render(), text);
    assert_eq!(FontWeight::from(v()).render(), text);
    assert_eq!(TextAlign::from(v()).render(), text);
    assert_eq!(TextDecoration::from(v()).render(), text);
    assert_eq!(Overflow::from(v()).render(), text);
    assert_eq!(Cursor::from(v()).render(), text);
    assert_eq!(Visibility::from(v()).render(), text);
    assert_eq!(BorderStyle::from(v()).render(), text);
    assert_eq!(ZIndex::from(v()).render(), text);
    assert_eq!(FontSize::from(v()).render(), text);
    assert_eq!(LineHeight::from(v()).render(), text);
    let color: Color = v().into();
    assert_eq!(color, Color::Var(v()));
    let size: Size = v().into();
    assert_eq!(size, Size::Var(v()));
}
