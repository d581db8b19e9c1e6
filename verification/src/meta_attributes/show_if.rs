//! `show_if` as a list of conditions.

use vstd::prelude::*;

use crate::naughty_attribute::INaughtyAttributeMeta;

verus! {

/// Shows a property while all of its conditions hold.
#[derive(Debug, Clone, PartialEq, Eq)]
pub struct ShowIf {
    pub conditions: Vec<String>,
}

impl ShowIf {
    /// An attribute with these conditions.
    pub fn new(conditions: Vec<String>) -> (r: Self)
        ensures
            r.conditions == conditions,
    {
        ShowIf { conditions }
    }
}

impl INaughtyAttributeMeta for ShowIf {
    const KEY: &'static str = "show_if";
}

} // verus!
