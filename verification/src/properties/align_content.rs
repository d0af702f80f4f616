//! The `align-content` property.
use crate::properties::{declared, Property};
use crate::text::Render;
use crate::values::AlignContent;
use vstd::prelude::*;

verus! {

/// The `align-content` property: how lines are distributed along the cross axis.
pub fn align_content(value: AlignContent) -> (p: Property)
    ensures
        p@ == declared("align-content"@, value.text()),
{
    Property::new("align-content", value)
}

} // verus!
