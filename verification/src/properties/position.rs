//! Offsets and stacking order.
use crate::properties::{declared, Property};
use crate::text::Render;
use crate::values::{Size, ZIndex};
use vstd::prelude::*;

verus! {

/// The `top` property.
pub fn top(value: Size) -> (p: Property)
    ensures
        p@ == declared("top"@, value.text()),
{
    Property::new("top", value)
}

/// The `right` property.
pub fn right(value: Size) -> (p: Property)
    ensures
        p@ == declared("right"@, value.text()),
{
    Property::new("right", value)
}

/// The `bottom` property.
pub fn bottom(value: Size) -> (p: Property)
    ensures
        p@ == declared("bottom"@, value.text()),
{
    Property::new("bottom", value)
}

/// The `left` property.
pub fn left(value: Size) -> (p: Property)
    ensures
        p@ == declared("left"@, value.text()),
{
    Property::new("left", value)
}

/// The `z-index` property.
pub fn z_index(value: ZIndex) -> (p: Property)
    ensures
        p@ == declared("z-index"@, value.text()),
{
    Property::new("z-index", value)
}

} // verus!
