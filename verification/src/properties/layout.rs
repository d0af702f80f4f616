//! Overflow, visibility, opacity and cursor.
use crate::number::Decimal;
use crate::properties::{declared, Property};
use crate::text::Render;
use crate::values::{Cursor, Overflow, Visibility};
use vstd::prelude::*;

verus! {

/// The `overflow` property.
pub fn overflow(value: Overflow) -> (p: Property)
    ensures
        p@ == declared("overflow"@, value.text()),
{
    Property::new("overflow", value)
}

/// The `overflow-x` property.
pub fn overflow_x(value: Overflow) -> (p: Property)
    ensures
        p@ == declared("overflow-x"@, value.text()),
{
    Property::new("overflow-x", value)
}

/// The `overflow-y` property.
pub fn overflow_y(value: Overflow) -> (p: Property)
    ensures
        p@ == declared("overflow-y"@, value.text()),
{
    Property::new("overflow-y", value)
}

/// The `visibility` property.
pub fn visibility(value: Visibility) -> (p: Property)
    ensures
        p@ == declared("visibility"@, value.text()),
{
    Property::new("visibility", value)
}

/// The `opacity` property. The value is brought into the range from zero to
/// one first: a value below zero is written `0`, one above one is written `1`.
pub fn opacity(value: Decimal) -> (p: Property)
    ensures
        p@ == declared("opacity"@, value.clamped().text()),
{
    Property::new("opacity", value.clamp_to_unit())
}

/// The `cursor` property.
pub fn cursor(value: Cursor) -> (p: Property)
    ensures
        p@ == declared("cursor"@, value.text()),
{
    Property::new("cursor", value)
}

} // verus!
