//! Color properties.
use crate::properties::{declared, Property};
use crate::text::Render;
use crate::values::Color;
use vstd::prelude::*;

verus! {

/// The `color` property.
pub fn color(value: Color) -> (p: Property)
    ensures
        p@ == declared("color"@, value.text()),
{
    Property::new("color", value)
}

/// The `background-color` property.
pub fn background_color(value: Color) -> (p: Property)
    ensures
        p@ == declared("background-color"@, value.text()),
{
    Property::new("background-color", value)
}

/// The `border-color` property.
pub fn border_color(value: Color) -> (p: Property)
    ensures
        p@ == declared("border-color"@, value.text()),
{
    Property::new("border-color", value)
}

} // verus!
