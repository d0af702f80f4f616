//! Font and text properties.
use crate::properties::{declared, Property};
use crate::text::Render;
use crate::values::{FontSize, FontWeight, LineHeight, TextAlign, TextDecoration};
use vstd::prelude::*;

verus! {

/// The `font-weight` property.
pub fn font_weight(value: FontWeight) -> (p: Property)
    ensures
        p@ == declared("font-weight"@, value.text()),
{
    Property::new("font-weight", value)
}

/// The `font-family` property. The value is taken as it is.
pub fn font_family(value: &str) -> (p: Property)
    ensures
        p@ == declared("font-family"@, value@),
{
    Property::new("font-family", value)
}

/// The `text-align` property.
pub fn text_align(value: TextAlign) -> (p: Property)
    ensures
        p@ == declared("text-align"@, value.text()),
{
    Property::new("text-align", value)
}

/// The `font-size` property, from a font size.
pub fn font_size_enum(value: FontSize) -> (p: Property)
    ensures
        p@ == declared("font-size"@, value.text()),
{
    Property::new("font-size", value)
}

/// The `line-height` property, from a line height.
pub fn line_height_enum(value: LineHeight) -> (p: Property)
    ensures
        p@ == declared("line-height"@, value.text()),
{
    Property::new("line-height", value)
}

/// The `text-decoration` property.
pub fn text_decoration(value: TextDecoration) -> (p: Property)
    ensures
        p@ == declared("text-decoration"@, value.text()),
{
    Property::new("text-decoration", value)
}

} // verus!
