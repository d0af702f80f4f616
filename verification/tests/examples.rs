use mew_css::number::Decimal;
use mew_css::properties::border_top::border_top_with_width_and_color;
use mew_css::properties::color::{background_color, color};
use mew_css::properties::layout::opacity;
use mew_css::properties::Property;
use mew_css::text::Render;
use mew_css::values::{BorderStyle, Color, Display, FontWeight, Size};
use mew_css::{style, var};

#[test]
fn a_blue_color() {
    assert_eq!(color(Color::Blue).render(), "color: blue;");
}

#[test]
fn a_translucent_background() {
    let alpha = Decimal::new(false, 5, 1);
    assert_eq!(
        background_color(Color::Rgba(240, 240, 240, alpha)).render(),
        "background-color: rgba(240, 240, 240, 0.5);"
    );
}

#[test]
fn a_chain_of_four() {
    let css = style()
        .color(Color::White)
        .background_color(Color::Rgba(255, 0, 0, Decimal::new(false, 5, 1)))
        .font_size(Size::Px(16))
        .display(Display::Flex)
        .apply();
    assert_eq!(
        css,
        "color: white; background-color: rgba(255, 0, 0, 0.5); font-size: 16px; display: flex;"
    );
}

#[test]
fn a_top_border() {
    assert_eq!(
        border_top_with_width_and_color(Size::Px(1), BorderStyle::Solid, Color::Red).render(),
        "border-top: 1px solid red;"
    );
    assert_eq!(
        style().border_top(Size::Px(1), BorderStyle::Solid, Color::Red).apply(),
        "border-top: 1px solid red;"
    );
}

#[test]
fn borders_on_every_side() {
    let css = style()
        .border(Size::Px(1), BorderStyle::Solid, Color::Hex("000".to_string()))
        .border_top(Size::Px(1), BorderStyle::Solid, Color::Red)
        .border_right(Size::Px(2), BorderStyle::Dashed, Color::Blue)
        .border_bottom(Size::Px(3), BorderStyle::Dotted, Color::Green)
        .border_left(Size::Px(4), BorderStyle::Double, Color::Black)
        .apply();
    assert_eq!(
        css,
        "border: 1px solid #000; border-top: 1px solid red; border-right: 2px dashed blue; \
         border-bottom: 3px dotted green; border-left: 4px double black;"
    );
}

#[test]
fn a_variable_defined_and_used() {
    let css = style()
        .set_var("primary-color", Color::Blue)
        .custom_property("color", var("primary-color"))
        .apply();
    assert_eq!(css, "--primary-color: blue; color: var(--primary-color);");
}

#[test]
fn set_var_normalizes_the_name() {
    let css = style()
        .set_var("--primary-color", "#3366ff")
        .set_var("spacing", "1rem")
        .set_var("  gap ", Size::Px(4))
        .apply();
    assert_eq!(css, "--primary-color: #3366ff; --spacing: 1rem; --gap: 4px;");
}

#[test]
fn custom_properties_take_any_name() {
    let css = style()
        .custom_property("animation-name", "fade-in")
        .custom_property("-webkit-appearance", String::from("none"))
        .custom_property("", "")
        .apply();
    assert_eq!(css, "animation-name: fade-in; -webkit-appearance: none; : ;");
}

#[test]
fn variables_feed_any_property() {
    let css = style()
        .color(var("primary").into())
        .padding(var("spacing").into())
        .display(var("mode").into())
        .apply();
    assert_eq!(css, "color: var(--primary); padding: var(--spacing); display: var(--mode);");
}

#[test]
fn opacity_is_clamped() {
    assert_eq!(opacity(Decimal::new(false, 15, 1)).render(), "opacity: 1;");
    assert_eq!(opacity(Decimal::new(true, 5, 1)).render(), "opacity: 0;");
    assert_eq!(opacity(Decimal::new(false, 1, 0)).render(), "opacity: 1;");
    assert_eq!(opacity(Decimal::new(false, 0, 0)).render(), "opacity: 0;");
    assert_eq!(opacity(Decimal::new(false, 5, 1)).render(), "opacity: 0.5;");
    assert_eq!(style().opacity(Decimal::new(false, 300, 2)).apply(), "opacity: 1;");
}

#[test]
fn a_weight_that_is_none_is_written_as_normal() {
    assert_eq!(FontWeight::Weight(150).render(), "400");
    assert_eq!(style().font_weight(FontWeight::Weight(150)).apply(), "font-weight: 400;");
}

#[test]
fn a_property_keeps_the_text_it_was_made_with() {
    let p = Property::new("color", "blue");
    assert_eq!(p.render(), "color: blue;");
    let q = Property::new("font-size", Size::Px(16));
    assert_eq!(q.render(), "font-size: 16px;");
    let r = Property::new("x", Property::new("y", "z").render());
    assert_eq!(r.render(), "x: y: z;;");
}
