use mew_css::number::Decimal;
use mew_css::properties::border_bottom::{border_bottom, border_bottom_with_color, border_bottom_with_width, border_bottom_with_width_and_color};
use mew_css::text::Render;
use mew_css::values::{BorderStyle, Color, Size};

#[test]
fn test_border_bottom_style_only() {
    let prop = border_bottom(BorderStyle::Solid);
    assert_eq!(prop.render(), "border-bottom: solid;");

    let prop = border_bottom(BorderStyle::Dashed);
    assert_eq!(prop.render(), "border-bottom: dashed;");

    let prop = border_bottom(BorderStyle::Dotted);
    assert_eq!(prop.render(), "border-bottom: dotted;");

    let prop = border_bottom(BorderStyle::Double);
    assert_eq!(prop.render(), "border-bottom: double;");

    let prop = border_bottom(BorderStyle::Groove);
    assert_eq!(prop.render(), "border-bottom: groove;");

    let prop = border_bottom(BorderStyle::Ridge);
    assert_eq!(prop.render(), "border-bottom: ridge;");

    let prop = border_bottom(BorderStyle::Inset);
    assert_eq!(prop.render(), "border-bottom: inset;");

    let prop = border_bottom(BorderStyle::Outset);
    assert_eq!(prop.render(), "border-bottom: outset;");

    let prop = border_bottom(BorderStyle::Nothing);
    assert_eq!(prop.render(), "border-bottom: none;");
}

#[test]
fn test_border_bottom_with_width() {
    let prop = border_bottom_with_width(Size::Px(2), BorderStyle::Dotted);
    assert_eq!(prop.render(), "border-bottom: 2px dotted;");

    let prop = border_bottom_with_width(Size::Rem(Decimal::new(false, 15, 1)), BorderStyle::Solid);
    assert_eq!(prop.render(), "border-bottom: 1.5rem solid;");

    let prop = border_bottom_with_width(Size::Em(Decimal::new(false, 5, 1)), BorderStyle::Dashed);
    assert_eq!(prop.render(), "border-bottom: 0.5em dashed;");

    let prop = border_bottom_with_width(Size::Percent(Decimal::new(false, 100, 0)), BorderStyle::Double);
    assert_eq!(prop.render(), "border-bottom: 100% double;");
}

#[test]
fn test_border_bottom_with_color() {
    let prop = border_bottom_with_color(BorderStyle::Outset, Color::Hex("#f33".to_string()));
    assert_eq!(prop.render(), "border-bottom: outset #f33;");

    let prop = border_bottom_with_color(BorderStyle::Solid, Color::Red);
    assert_eq!(prop.render(), "border-bottom: solid red;");

    let prop = border_bottom_with_color(BorderStyle::Dashed, Color::Rgb(255, 0, 0));
    assert_eq!(prop.render(), "border-bottom: dashed rgb(255, 0, 0);");

    let prop = border_bottom_with_color(BorderStyle::Dotted, Color::Rgba(0, 0, 255, Decimal::new(false, 5, 1)));
    assert_eq!(prop.render(), "border-bottom: dotted rgba(0, 0, 255, 0.5);");
}

#[test]
fn test_border_bottom_with_width_and_color() {
    let prop = border_bottom_with_width_and_color(Size::Px(3), BorderStyle::Dashed, Color::Green);
    assert_eq!(prop.render(), "border-bottom: 3px dashed green;");

    let prop = border_bottom_with_width_and_color(Size::Px(4), BorderStyle::Double, Color::Rgb(50, 161, 206));
    assert_eq!(prop.render(), "border-bottom: 4px double rgb(50, 161, 206);");

    let prop = border_bottom_with_width_and_color(Size::Rem(Decimal::new(false, 25, 2)), BorderStyle::Ridge, Color::Rgba(211, 220, 50, Decimal::new(false, 6, 1)));
    assert_eq!(prop.render(), "border-bottom: 0.25rem ridge rgba(211, 220, 50, 0.6);");
}
