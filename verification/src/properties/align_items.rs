//! The `align-items` property.
use crate::properties::{declared, Property};
use crate::text::Render;
use crate::values::AlignItems;
use vstd::prelude::*;

verus! {

/// The `align-items` property: how items are aligned on the cross axis.
pub fn align_items(value: AlignItems) -> (p: Property)
    ensures
        p@ == declared("align-items"@, value.text()),
{
    Property::new("align-items", value)
}

} // verus!
