//! Properties that take a size: dimensions, margins, padding, font size.
use crate::properties::{declared, Property};
use crate::text::Render;
use crate::values::Size;
use vstd::prelude::*;

verus! {

/// The `width` property.
pub fn width(value: Size) -> (p: Property)
    ensures
        p@ == declared("width"@, value.text()),
{
    Property::new("width", value)
}

/// The `height` property.
pub fn height(value: Size) -> (p: Property)
    ensures
        p@ == declared("height"@, value.text()),
{
    Property::new("height", value)
}

/// The `margin` property.
pub fn margin(value: Size) -> (p: Property)
    ensures
        p@ == declared("margin"@, value.text()),
{
    Property::new("margin", value)
}

/// The `margin-top` property.
pub fn margin_top(value: Size) -> (p: Property)
    ensures
        p@ == declared("margin-top"@, value.text()),
{
    Property::new("margin-top", value)
}

/// The `margin-right` property.
pub fn margin_right(value: Size) -> (p: Property)
    ensures
        p@ == declared("margin-right"@, value.text()),
{
    Property::new("margin-right", value)
}

/// The `margin-bottom` property.
pub fn margin_bottom(value: Size) -> (p: Property)
    ensures
        p@ == declared("margin-bottom"@, value.text()),
{
    Property::new("margin-bottom", value)
}

/// The `margin-left` property.
pub fn margin_left(value: Size) -> (p: Property)
    ensures
        p@ == declared("margin-left"@, value.text()),
{
    Property::new("margin-left", value)
}

/// The `padding` property.
pub fn padding(value: Size) -> (p: Property)
    ensures
        p@ == declared("padding"@, value.text()),
{
    Property::new("padding", value)
}

/// The `padding-top` property.
pub fn padding_top(value: Size) -> (p: Property)
    ensures
        p@ == declared("padding-top"@, value.text()),
{
    Property::new("padding-top", value)
}

/// The `padding-right` property.
pub fn padding_right(value: Size) -> (p: Property)
    ensures
        p@ == declared("padding-right"@, value.text()),
{
    Property::new("padding-right", value)
}

/// The `padding-bottom` property.
pub fn padding_bottom(value: Size) -> (p: Property)
    ensures
        p@ == declared("padding-bottom"@, value.text()),
{
    Property::new("padding-bottom", value)
}

/// The `padding-left` property.
pub fn padding_left(value: Size) -> (p: Property)
    ensures
        p@ == declared("padding-left"@, value.text()),
{
    Property::new("padding-left", value)
}

/// The `font-size` property.
pub fn font_size(value: Size) -> (p: Property)
    ensures
        p@ == declared("font-size"@, value.text()),
{
    Property::new("font-size", value)
}

/// The `line-height` property.
pub fn line_height(value: Size) -> (p: Property)
    ensures
        p@ == declared("line-height"@, value.text()),
{
    Property::new("line-height", value)
}

/// The `border-width` property.
pub fn border_width(value: Size) -> (p: Property)
    ensures
        p@ == declared("border-width"@, value.text()),
{
    Property::new("border-width", value)
}

} // verus!
