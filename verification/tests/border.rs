use mew_css::number::Decimal;
use mew_css::properties::border::{border, border_with_color, border_with_width, border_with_width_and_color};
use mew_css::text::Render;
use mew_css::values::{BorderStyle, Color, Size};

#[test]
fn test_border_style_only() {
    let prop = border(BorderStyle::Solid);
    assert_eq!(prop.render(), "border: solid;");

    let prop = border(BorderStyle::Dashed);
    assert_eq!(prop.render(), "border: dashed;");

    let prop = border(BorderStyle::Dotted);
    assert_eq!(prop.render(), "border: dotted;");

    let prop = border(BorderStyle::Double);
    assert_eq!(prop.render(), "border: double;");

    let prop = border(BorderStyle::Groove);
    assert_eq!(prop.render(), "border: groove;");

    let prop = border(BorderStyle::Ridge);
    assert_eq!(prop.render(), "border: ridge;");

    let prop = border(BorderStyle::Inset);
    assert_eq!(prop.render(), "border: inset;");

    let prop = border(BorderStyle::Outset);
    assert_eq!(prop.render(), "border: outset;");

    let prop = border(BorderStyle::Nothing);
    assert_eq!(prop.render(), "border: none;");
}

#[test]
fn test_border_with_width() {
    let prop = border_with_width(Size::Px(2), BorderStyle::Dotted);
    assert_eq!(prop.render(), "border: 2px dotted;");

    let prop = border_with_width(Size::Rem(Decimal::new(false, 15, 1)), BorderStyle::Solid);
    assert_eq!(prop.render(), "border: 1.5rem solid;");

    let prop = border_with_width(Size::Em(Decimal::new(false, 5, 1)), BorderStyle::Dashed);
    assert_eq!(prop.render(), "border: 0.5em dashed;");

    let prop = border_with_width(Size::Percent(Decimal::new(false, 100, 0)), BorderStyle::Double);
    assert_eq!(prop.render(), "border: 100% double;");
}

#[test]
fn test_border_with_color() {
    let prop = border_with_color(BorderStyle::Outset, Color::Hex("#f33".to_string()));
    assert_eq!(prop.render(), "border: outset #f33;");

    let prop = border_with_color(BorderStyle::Solid, Color::Red);
    assert_eq!(prop.render(), "border: solid red;");

    let prop = border_with_color(BorderStyle::Dashed, Color::Rgb(255, 0, 0));
    assert_eq!(prop.render(), "border: dashed rgb(255, 0, 0);");

    let prop = border_with_color(BorderStyle::Dotted, Color::Rgba(0, 0, 255, Decimal::new(false, 5, 1)));
    assert_eq!(prop.render(), "border: dotted rgba(0, 0, 255, 0.5);");
}

#[test]
fn test_border_with_width_and_color() {
    let prop = border_with_width_and_color(Size::Px(3), BorderStyle::Dashed, Color::Green);
    assert_eq!(prop.render(), "border: 3px dashed green;");

    let prop = border_with_width_and_color(Size::Px(4), BorderStyle::Double, Color::Rgb(50, 161, 206));
    assert_eq!(prop.render(), "border: 4px double rgb(50, 161, 206);");

    let prop = border_with_width_and_color(Size::Rem(Decimal::new(false, 25, 2)), BorderStyle::Ridge, Color::Rgba(211, 220, 50, Decimal::new(false, 6, 1)));
    assert_eq!(prop.render(), "border: 0.25rem ridge rgba(211, 220, 50, 0.6);");
}
