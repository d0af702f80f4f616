//! The `background-color` property.
use crate::properties::{declared, Property};
use crate::text::Render;
use crate::values::Color;
use vstd::prelude::*;

verus! {

/// The `background-color` property: the color behind an element's content.
pub fn background_color(value: Color) -> (p: Property)
    ensures
        p@ == declared("background-color"@, value.text()),
{
    Property::new("background-color", value)
}

} // verus!
