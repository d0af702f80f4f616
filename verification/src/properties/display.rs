//! Display and flex container properties.
use crate::properties::{declared, Property};
use crate::text::Render;
use crate::values::{AlignItems, Display, FlexDirection, JustifyContent, Position};
use vstd::prelude::*;

verus! {

/// The `display` property.
pub fn display(value: Display) -> (p: Property)
    ensures
        p@ == declared("display"@, value.text()),
{
    Property::new("display", value)
}

/// The `position` property.
pub fn position(value: Position) -> (p: Property)
    ensures
        p@ == declared("position"@, value.text()),
{
    Property::new("position", value)
}

/// The `flex-direction` property.
pub fn flex_direction(value: FlexDirection) -> (p: Property)
    ensures
        p@ == declared("flex-direction"@, value.text()),
{
    Property::new("flex-direction", value)
}

/// The `justify-content` property.
pub fn justify_content(value: JustifyContent) -> (p: Property)
    ensures
        p@ == declared("justify-content"@, value.text()),
{
    Property::new("justify-content", value)
}

/// The `align-items` property.
pub fn align_items(value: AlignItems) -> (p: Property)
    ensures
        p@ == declared("align-items"@, value.text()),
{
    Property::new("align-items", value)
}

} // verus!
