//! Conditions: boolean expressions whose operators are rewritten for the
//! engine's expression compiler.

use vstd::prelude::*;
use vstd::string::*;

use crate::expression::{normalize_operators, normalized};

verus! {

/// Rewrites `&&` and `||` outside string literals as `and` and `or`.
pub fn normalize(source: &str) -> (r: String)
    ensures
        r@ == normalized(source@),
{
    normalize_operators(source)
}

} // verus!
