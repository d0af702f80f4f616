//! Border properties and the `border` shorthand.
use crate::properties::{declared, Property};
use crate::text::Render;
use crate::values::{append_optional, optional_part, BorderStyle, BoxShadow, Color, Size};
use vstd::prelude::*;

verus! {

/// The value of a border shorthand: an optional width, a style and an
/// optional color.
#[derive(Debug, Clone, PartialEq)]
pub struct BorderValue {
    pub width: Option<Size>,
    pub style: BorderStyle,
    pub color: Option<Color>,
}

/// The text of a border shorthand: the width, the style and the color, in
/// that order, with one space between neighbours and nothing in place of a
/// component that is absent.
pub open spec fn border_text(width: Option<Size>, style: BorderStyle, color: Option<Color>) -> Seq<
    char,
> {
    let lead = match width {
        Some(w) => w.text() + " "@,
        None => Seq::empty(),
    };
    lead + style.text() + optional_part(color)
}

impl Render for BorderValue {
    open spec fn text(&self) -> Seq<char> {
        border_text(self.width, self.style, self.color)
    }

    fn render(&self) -> (out: String) {
        let mut out = String::new();
        match &self.width {
            Some(w) => {
                out.append(w.render().as_str());
                out.append(" ");
            },
            None => {},
        }
        out.append(self.style.render().as_str());
        append_optional(&mut out, &self.color);
        assert(out@ =~= self.text());
        out
    }
}

/// The `border-style` property.
pub fn border_style(value: BorderStyle) -> (p: Property)
    ensures
        p@ == declared("border-style"@, value.text()),
{
    Property::new("border-style", value)
}

/// The `border-radius` property.
pub fn border_radius(value: Size) -> (p: Property)
    ensures
        p@ == declared("border-radius"@, value.text()),
{
    Property::new("border-radius", value)
}

/// The `border` shorthand with a style only.
pub fn border(style: BorderStyle) -> (p: Property)
    ensures
        p@ == declared("border"@, border_text(None, style, None)),
{
    Property::new("border", BorderValue { width: None, style, color: None })
}

/// The `border` shorthand with a width and a style.
pub fn border_with_width(width: Size, style: BorderStyle) -> (p: Property)
    ensures
        p@ == declared("border"@, border_text(Some(width), style, None)),
{
    Property::new("border", BorderValue { width: Some(width), style, color: None })
}

/// The `border` shorthand with a style and a color.
pub fn border_with_color(style: BorderStyle, color: Color) -> (p: Property)
    ensures
        p@ == declared("border"@, border_text(None, style, Some(color))),
{
    Property::new("border", BorderValue { width: None, style, color: Some(color) })
}

/// The `border` shorthand with a width, a style and a color.
pub fn border_with_width_and_color(width: Size, style: BorderStyle, color: Color) -> (p: Property)
    ensures
        p@ == declared("border"@, border_text(Some(width), style, Some(color))),
{
    Property::new("border", BorderValue { width: Some(width), style, color: Some(color) })
}

/// The `box-shadow` property.
pub fn box_shadow(value: BoxShadow) -> (p: Property)
    ensures
        p@ == declared("box-shadow"@, value.text()),
{
    Property::new("box-shadow", value)
}

/// The `box-shadow` property with the value `none`.
pub fn box_shadow_none() -> (p: Property)
    ensures
        p@ == declared("box-shadow"@, "none"@),
{
    Property::new("box-shadow", "none")
}

} // verus!
