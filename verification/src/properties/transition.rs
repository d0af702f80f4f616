//! Transitions.
use crate::number::Decimal;
use crate::properties::{declared, Property};
use crate::text::Render;
use crate::values::{transition_string, transition_text, Transition};
use vstd::prelude::*;

verus! {

/// The `transition` property.
pub fn transition(value: Transition) -> (p: Property)
    ensures
        p@ == declared("transition"@, value.text()),
{
    Property::new("transition", value)
}

/// The `transition` property with the value `none`.
pub fn transition_none() -> (p: Property)
    ensures
        p@ == declared("transition"@, "none"@),
{
    Property::new("transition", "none")
}

/// The character view of an optional string.
pub open spec fn optional_text(s: Option<&str>) -> Option<Seq<char>> {
    match s {
        Some(name) => Some(name@),
        None => None,
    }
}

/// The `transition` property for all properties: `all`, the duration in
/// seconds, then the timing function and the delay in seconds as far as they
/// are given, in that order.
pub fn transition_all(duration: Decimal, timing_function: Option<&str>, delay: Option<Decimal>) -> (p:
    Property)
    ensures
        p@ == declared(
            "transition"@,
            transition_text("all"@, duration, optional_text(timing_function), delay),
        ),
{
    Property::new("transition", transition_string("all", &duration, timing_function, &delay))
}

} // verus!
