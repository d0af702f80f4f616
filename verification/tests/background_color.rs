use mew_css::number::Decimal;
use mew_css::properties::background_color::background_color;
use mew_css::text::Render;
use mew_css::values::Color;

#[test]
fn test_named_colors() {
    let prop = background_color(Color::Red);
    assert_eq!(prop.render(), "background-color: red;");

    let prop = background_color(Color::Blue);
    assert_eq!(prop.render(), "background-color: blue;");

    let prop = background_color(Color::Green);
    assert_eq!(prop.render(), "background-color: green;");
}

#[test]
fn test_rgb_colors() {
    let prop = background_color(Color::Rgb(255, 0, 0));
    assert_eq!(prop.render(), "background-color: rgb(255, 0, 0);");

    let prop = background_color(Color::Rgb(0, 255, 0));
    assert_eq!(prop.render(), "background-color: rgb(0, 255, 0);");

    let prop = background_color(Color::Rgb(0, 0, 255));
    assert_eq!(prop.render(), "background-color: rgb(0, 0, 255);");
}

#[test]
fn test_rgba_colors() {
    let prop = background_color(Color::Rgba(255, 0, 0, Decimal::new(false, 1, 0)));
    assert_eq!(prop.render(), "background-color: rgba(255, 0, 0, 1);");

    let prop = background_color(Color::Rgba(0, 255, 0, Decimal::new(false, 5, 1)));
    assert_eq!(prop.render(), "background-color: rgba(0, 255, 0, 0.5);");

    let prop = background_color(Color::Rgba(0, 0, 255, Decimal::new(false, 0, 0)));
    assert_eq!(prop.render(), "background-color: rgba(0, 0, 255, 0);");
}

#[test]
fn test_hex_colors() {
    let prop = background_color(Color::Hex("#ff0000".to_string()));
    assert_eq!(prop.render(), "background-color: #ff0000;");

    let prop = background_color(Color::Hex("#00ff00".to_string()));
    assert_eq!(prop.render(), "background-color: #00ff00;");

    let prop = background_color(Color::Hex("#0000ff".to_string()));
    assert_eq!(prop.render(), "background-color: #0000ff;");
}

#[test]
fn test_hsl_colors() {
    let prop = background_color(Color::Hsl(0, 100, 50));
    assert_eq!(prop.render(), "background-color: hsl(0, 100%, 50%);");

    let prop = background_color(Color::Hsl(120, 100, 50));
    assert_eq!(prop.render(), "background-color: hsl(120, 100%, 50%);");

    let prop = background_color(Color::Hsl(240, 100, 50));
    assert_eq!(prop.render(), "background-color: hsl(240, 100%, 50%);");
}

#[test]
fn test_hsla_colors() {
    let prop = background_color(Color::Hsla(0, 100, 50, Decimal::new(false, 1, 0)));
    assert_eq!(prop.render(), "background-color: hsla(0, 100%, 50%, 1);");

    let prop = background_color(Color::Hsla(120, 100, 50, Decimal::new(false, 5, 1)));
    assert_eq!(prop.render(), "background-color: hsla(120, 100%, 50%, 0.5);");

    let prop = background_color(Color::Hsla(240, 100, 50, Decimal::new(false, 0, 0)));
    assert_eq!(prop.render(), "background-color: hsla(240, 100%, 50%, 0);");
}

#[test]
fn test_special_values() {
    let prop = background_color(Color::Transparent);
    assert_eq!(prop.render(), "background-color: transparent;");

    let prop = background_color(Color::CurrentColor);
    assert_eq!(prop.render(), "background-color: currentColor;");
}

#[test]
fn background_color_test_global_values() {
    let prop = background_color(Color::Inherit);
    assert_eq!(prop.render(), "background-color: inherit;");
}
