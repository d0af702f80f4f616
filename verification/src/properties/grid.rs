//! Grid templates.
use crate::properties::{declared, Property};
use crate::text::Render;
use vstd::prelude::*;

verus! {

/// The `grid-template-columns` property. The value is taken as it is.
pub fn grid_template_columns(value: &str) -> (p: Property)
    ensures
        p@ == declared("grid-template-columns"@, value@),
{
    Property::new("grid-template-columns", value)
}

/// The `grid-template-rows` property. The value is taken as it is.
pub fn grid_template_rows(value: &str) -> (p: Property)
    ensures
        p@ == declared("grid-template-rows"@, value@),
{
    Property::new("grid-template-rows", value)
}

} // verus!
