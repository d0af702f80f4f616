//! Limits on an element's dimensions.
use crate::properties::{declared, Property};
use crate::text::Render;
use crate::values::Size;
use vstd::prelude::*;

verus! {

/// The `max-width` property.
pub fn max_width(value: Size) -> (p: Property)
    ensures
        p@ == declared("max-width"@, value.text()),
{
    Property::new("max-width", value)
}

/// The `min-width` property.
pub fn min_width(value: Size) -> (p: Property)
    ensures
        p@ == declared("min-width"@, value.text()),
{
    Property::new("min-width", value)
}

/// The `max-height` property.
pub fn max_height(value: Size) -> (p: Property)
    ensures
        p@ == declared("max-height"@, value.text()),
{
    Property::new("max-height", value)
}

/// The `min-height` property.
pub fn min_height(value: Size) -> (p: Property)
    ensures
        p@ == declared("min-height"@, value.text()),
{
    Property::new("min-height", value)
}

} // verus!
