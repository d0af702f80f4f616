//! Gaps between flex and grid items.
use crate::properties::{declared, Property};
use crate::text::Render;
use crate::values::Size;
use vstd::prelude::*;

verus! {

/// The `gap` property.
pub fn gap(value: Size) -> (p: Property)
    ensures
        p@ == declared("gap"@, value.text()),
{
    Property::new("gap", value)
}

/// The `row-gap` property.
pub fn row_gap(value: Size) -> (p: Property)
    ensures
        p@ == declared("row-gap"@, value.text()),
{
    Property::new("row-gap", value)
}

/// The `column-gap` property.
pub fn column_gap(value: Size) -> (p: Property)
    ensures
        p@ == declared("column-gap"@, value.text()),
{
    Property::new("column-gap", value)
}

} // verus!
