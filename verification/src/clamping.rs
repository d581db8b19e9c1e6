//! Clamping a property's value into the bounds that `min_value` and
//! `max_value` give: which kind of value can be clamped, and the clamping of
//! the integer kinds.

use vstd::prelude::*;
use vstd::string::*;

use crate::text::concat2;
use crate::expressions::number_expression::is_number_type;
use crate::variant_type::VariantType;

verus! {

/// How a value of each type is clamped.
#[derive(Clone, Copy, Debug, PartialEq, Eq, Structural)]
pub enum ClampKind {
    /// A 64-bit integer, between the bounds rounded inwards.
    Int,
    /// A float, between the bounds.
    Float,
    /// A vector of floats, each component between the bounds.
    RealVector,
    /// A vector of 32-bit integers, each component between the bounds
    /// rounded inwards.
    IntVector,
}

/// How a value of type `t` is clamped, if it can be.
pub open spec fn clamp_kind_of(t: VariantType) -> Option<ClampKind> {
    match t {
        VariantType::Int => Some(ClampKind::Int),
        VariantType::Float => Some(ClampKind::Float),
        VariantType::Vector2 | VariantType::Vector3 | VariantType::Vector4 => Some(
            ClampKind::RealVector,
        ),
        VariantType::Vector2i | VariantType::Vector3i | VariantType::Vector4i => Some(
            ClampKind::IntVector,
        ),
        _ => None,
    }
}

/// The message for a value that cannot be clamped, given the engine's name
/// for its type.
pub open spec fn cannot_clamp_message(kind_name: Seq<char>) -> Seq<char> {
    "cannot clamp a value of type "@ + kind_name
}

/// How a value of type `t` is clamped; `kind_name` is the engine's name for
/// `t`, which the refusal names.
pub fn clamp_kind(t: VariantType, kind_name: &str) -> (r: Result<ClampKind, String>)
    ensures
        match r {
            Ok(k) => clamp_kind_of(t) == Some(k),
            Err(m) => clamp_kind_of(t) is None && m@ == cannot_clamp_message(kind_name@),
        },
{
    match t {
        VariantType::Int => Ok(ClampKind::Int),
        VariantType::Float => Ok(ClampKind::Float),
        VariantType::Vector2 | VariantType::Vector3 | VariantType::Vector4 => Ok(
            ClampKind::RealVector,
        ),
        VariantType::Vector2i | VariantType::Vector3i | VariantType::Vector4i => Ok(
            ClampKind::IntVector,
        ),
        _ => Err(concat2("cannot clamp a value of type ", kind_name)),
    }
}

/// `value` raised to `low`, then lowered to `high`: `max(low)` then
/// `min(high)`, so that `high` wins when the bounds cross.
pub open spec fn clamped(value: int, low: int, high: int) -> int {
    let raised = if value < low {
        low
    } else {
        value
    };
    if raised > high {
        high
    } else {
        raised
    }
}

/// `value.max(low).min(high)` on a 64-bit integer.
pub fn clamp_i64(value: i64, low: i64, high: i64) -> (r: i64)
    ensures
        r == clamped(value as int, low as int, high as int),
{
    let raised = if value < low {
        low
    } else {
        value
    };
    if raised > high {
        high
    } else {
        raised
    }
}

/// `value.max(low).min(high)` on a 32-bit integer, as a vector component is
/// clamped.
pub fn clamp_i32(value: i32, low: i32, high: i32) -> (r: i32)
    ensures
        r == clamped(value as int, low as int, high as int),
{
    let raised = if value < low {
        low
    } else {
        value
    };
    if raised > high {
        high
    } else {
        raised
    }
}

/// The components of an integer vector, each clamped.
pub fn clamp_components(components: &Vec<i32>, low: i32, high: i32) -> (r: Vec<i32>)
    ensures
        r.len() == components.len(),
        forall|i: int|
            0 <= i < components.len() ==> r@[i] as int == clamped(
                #[trigger] components@[i] as int,
                low as int,
                high as int,
            ),
{
    let mut out: Vec<i32> = Vec::new();
    let mut i: usize = 0;
    while i < components.len()
        invariant
            i <= components.len(),
            out.len() == i,
            forall|j: int|
                0 <= j < i ==> out@[j] as int == clamped(
                    #[trigger] components@[j] as int,
                    low as int,
                    high as int,
                ),
        decreases components.len() - i,
    {
        out.push(clamp_i32(components[i], low, high));
        i = i + 1;
    }
    out
}

/// With bounds in order, a clamped value lies between them, a value already
/// between them is left as it is, and clamping twice changes nothing more.
pub proof fn lemma_clamped_is_within_bounds(value: int, low: int, high: int)
    requires
        low <= high,
    ensures
        low <= clamped(value, low, high) <= high,
        low <= value <= high ==> clamped(value, low, high) == value,
        clamped(clamped(value, low, high), low, high) == clamped(value, low, high),
{
}

/// With crossed bounds, clamping gives the upper bound, whatever the value.
pub proof fn lemma_crossed_bounds_give_the_upper(value: int, low: int, high: int)
    requires
        low > high,
    ensures
        clamped(value, low, high) == high,
{
}

/// Clamping twice gives what clamping once gives, whatever the bounds.
pub proof fn lemma_clamping_twice_changes_nothing(value: int, low: int, high: int)
    ensures
        clamped(clamped(value, low, high), low, high) == clamped(value, low, high),
{
}

/// Every type that a bound applies to can be clamped, each by its kind: an
/// int as an integer, a float as a float, the float vectors component-wise
/// as floats, the integer vectors component-wise as integers; no other type
/// can be clamped.
pub proof fn lemma_every_bounded_type_can_be_clamped(t: VariantType)
    ensures
        is_number_type(t) <==> clamp_kind_of(t) is Some,
        t == VariantType::Int ==> clamp_kind_of(t) == Some(ClampKind::Int),
        t == VariantType::Float ==> clamp_kind_of(t) == Some(ClampKind::Float),
        (t == VariantType::Vector2 || t == VariantType::Vector3 || t == VariantType::Vector4)
            ==> clamp_kind_of(t) == Some(ClampKind::RealVector),
        (t == VariantType::Vector2i || t == VariantType::Vector3i || t == VariantType::Vector4i)
            ==> clamp_kind_of(t) == Some(ClampKind::IntVector),
{
}

} // verus!
