//! The `border-left` shorthand.
use crate::properties::border::{border_text, BorderValue};
use crate::properties::{declared, Property};
use crate::text::Render;
use crate::values::{BorderStyle, Color, Size};
use vstd::prelude::*;

verus! {

/// The `border-left` shorthand with a style only.
pub fn border_left(style: BorderStyle) -> (p: Property)
    ensures
        p@ == declared("border-left"@, border_text(None, style, None)),
{
    Property::new("border-left", BorderValue { width: None, style, color: None })
}

/// The `border-left` shorthand with a width and a style.
pub fn border_left_with_width(width: Size, style: BorderStyle) -> (p: Property)
    ensures
        p@ == declared("border-left"@, border_text(Some(width), style, None)),
{
    Property::new("border-left", BorderValue { width: Some(width), style, color: None })
}

/// The `border-left` shorthand with a style and a color.
pub fn border_left_with_color(style: BorderStyle, color: Color) -> (p: Property)
    ensures
        p@ == declared("border-left"@, border_text(None, style, Some(color))),
{
    Property::new("border-left", BorderValue { width: None, style, color: Some(color) })
}

/// The `border-left` shorthand with a width, a style and a color.
pub fn border_left_with_width_and_color(width: Size, style: BorderStyle, color: Color) -> (p: Property)
    ensures
        p@ == declared("border-left"@, border_text(Some(width), style, Some(color))),
{
    Property::new("border-left", BorderValue { width: Some(width), style, color: Some(color) })
}

} // verus!
