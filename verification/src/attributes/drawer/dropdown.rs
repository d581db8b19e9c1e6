//! `dropdown`: a property edited by picking one of the options that an
//! expression gives.

use vstd::prelude::*;

use crate::attributes::ParseContext;
use crate::expression::{answers_compile, compiler_ready};
use crate::expressions::options_expression::{options_expression_of, OptionsExpression};
use crate::text::{concat2, concat3};
use crate::variant_type::VariantType;

verus! {

pub const KEY: &'static str = "dropdown";

/// The options of the dropdown and the type of the property it edits.
pub struct Dropdown {
    pub options: OptionsExpression,
    pub variant_type: VariantType,
}

impl View for Dropdown {
    type V = (Seq<char>, VariantType);

    open spec fn view(&self) -> (Seq<char>, VariantType) {
        (self.options@, self.variant_type)
    }
}

/// Whether a value of type `value_type` can be stored in a property of type
/// `variant_type`: the same type, a number in a number, a string in a string,
/// or nil in an object.
pub open spec fn assignable(value_type: VariantType, variant_type: VariantType) -> bool {
    if value_type == variant_type {
        true
    } else if variant_type == VariantType::Int || variant_type == VariantType::Float {
        value_type == VariantType::Int || value_type == VariantType::Float
    } else if variant_type == VariantType::String || variant_type == VariantType::StringName {
        value_type == VariantType::String || value_type == VariantType::StringName
    } else if variant_type == VariantType::Object {
        value_type == VariantType::Nil
    } else {
        false
    }
}

/// Whether a value of type `value_type` can be stored in a property of type
/// `variant_type`.
pub fn is_assignable(value_type: VariantType, variant_type: VariantType) -> (r: bool)
    ensures
        r == assignable(value_type, variant_type),
{
    if value_type == variant_type {
        return true;
    }
    match variant_type {
        VariantType::Int | VariantType::Float => value_type == VariantType::Int || value_type
            == VariantType::Float,
        VariantType::String | VariantType::StringName => value_type == VariantType::String
            || value_type == VariantType::StringName,
        VariantType::Object => value_type == VariantType::Nil,
        _ => false,
    }
}

/// The position of the first of `value_types` from `i` on that a property of
/// type `variant_type` cannot hold.
pub open spec fn first_unassignable(value_types: Seq<VariantType>, variant_type: VariantType, i: int) -> Option<int>
    decreases value_types.len() - i,
{
    if i < 0 || i >= value_types.len() {
        None
    } else if !assignable(value_types[i], variant_type) {
        Some(i)
    } else {
        first_unassignable(value_types, variant_type, i + 1)
    }
}

/// The message for an option that the property cannot hold.
pub open spec fn unassignable_message(label: Seq<char>, value_kind: Seq<char>, property_kind: Seq<char>) -> Seq<char> {
    "option '"@ + label + "' is "@ + value_kind + ", not "@ + property_kind
}

proof fn lemma_first_unassignable(value_types: Seq<VariantType>, variant_type: VariantType, i: int)
    requires
        0 <= i,
    ensures
        match first_unassignable(value_types, variant_type, i) {
            Some(k) => i <= k < value_types.len() && !assignable(value_types[k], variant_type)
                && forall|j: int| i <= j < k ==> assignable(#[trigger] value_types[j], variant_type),
            None => forall|j: int|
                i <= j < value_types.len() ==> assignable(#[trigger] value_types[j], variant_type),
        },
    decreases value_types.len() - i,
{
    if i < value_types.len() && assignable(value_types[i], variant_type) {
        lemma_first_unassignable(value_types, variant_type, i + 1);
    }
}

impl Dropdown {
    /// Whether the property can hold every option; if not, the message for
    /// the first option it cannot hold. The options are given by their
    /// labels, the types of their values and the engine's names for those
    /// types; `property_kind` is the engine's name for the property's type.
    pub fn check_options(
        &self,
        labels: &Vec<String>,
        value_types: &Vec<VariantType>,
        value_kinds: &Vec<String>,
        property_kind: &str,
    ) -> (r: Result<(), String>)
        requires
            labels.len() == value_types.len(),
            value_kinds.len() == value_types.len(),
        ensures
            match first_unassignable(value_types@, self.variant_type, 0) {
                Some(i) => r matches Err(m) && m@ == unassignable_message(
                    labels@[i]@,
                    value_kinds@[i]@,
                    property_kind@,
                ),
                None => r is Ok,
            },
    {
        proof {
            lemma_first_unassignable(value_types@, self.variant_type, 0);
        }
        match self.find_unassignable(value_types) {
            Some(i) => {
                proof {
                    let k = first_unassignable(value_types@, self.variant_type, 0)->Some_0;
                    if k < i {
                        assert(assignable(value_types@[k], self.variant_type));
                    }
                    if i < k {
                        assert(assignable(value_types@[i as int], self.variant_type));
                    }
                }
                let mut m = concat3("option '", labels[i].as_str(), "' is ");
                m.append(value_kinds[i].as_str());
                m.append(", not ");
                m.append(property_kind);
                Err(m)
            },
            None => Ok(()),
        }
    }

    /// Reads the expression that gives the options, for a property of the
    /// context's type; `compile` answers for a source the error the engine's
    /// compiler reports, or none.
    pub fn parse<F: Fn(&str) -> Option<String>>(raw_args: &str, context: &ParseContext, compile: &F) -> (r:
        Result<Self, String>)
        requires
            compiler_ready(*compile),
        ensures
            forall|errors: spec_fn(Seq<char>) -> Option<Seq<char>>|
                #[trigger] answers_compile(*compile, errors) ==> match r {
                    Ok(d) => options_expression_of(raw_args@, errors) == Ok::<Seq<char>, Seq<char>>(
                        d.options@,
                    ) && d.variant_type == context.variant_type,
                    Err(m) => options_expression_of(raw_args@, errors) == Err::<Seq<char>, Seq<char>>(
                        m@,
                    ),
                },
    {
        match OptionsExpression::parse(raw_args, context, compile) {
            Ok(options) => Ok(Dropdown { options, variant_type: context.variant_type }),
            Err(m) => Err(m),
        }
    }

    /// The first option, among the types of the options' values, that the
    /// property cannot hold.
    pub fn find_unassignable(&self, value_types: &Vec<VariantType>) -> (r: Option<usize>)
        ensures
            match r {
                Some(i) => i < value_types.len() && !assignable(value_types@[i as int], self.variant_type)
                    && forall|j: int|
                    0 <= j < i ==> assignable(#[trigger] value_types@[j], self.variant_type),
                None => forall|j: int|
                    0 <= j < value_types.len() ==> assignable(
                        #[trigger] value_types@[j],
                        self.variant_type,
                    ),
            },
    {
        let mut i: usize = 0;
        while i < value_types.len()
            invariant
                i <= value_types.len(),
                forall|j: int| 0 <= j < i ==> assignable(#[trigger] value_types@[j], self.variant_type),
            decreases value_types.len() - i,
        {
            if !is_assignable(value_types[i], self.variant_type) {
                return Some(i);
            }
            i = i + 1;
        }
        None
    }
}

/// The label of the current value when no option holds it.
pub open spec fn stale_label(value_text: Seq<char>) -> Seq<char> {
    value_text + " (not an option)"@
}

/// The position of the first option whose value is the property's value.
pub open spec fn first_match(matches: Seq<bool>, i: int) -> Option<int>
    decreases matches.len() - i,
{
    if i < 0 || i >= matches.len() {
        None
    } else if matches[i] {
        Some(i)
    } else {
        first_match(matches, i + 1)
    }
}

proof fn lemma_first_match(matches: Seq<bool>, i: int)
    requires
        0 <= i,
    ensures
        match first_match(matches, i) {
            Some(k) => i <= k < matches.len() && matches[k] && forall|j: int| i <= j < k ==> !#[trigger] matches[j],
            None => forall|j: int| i <= j < matches.len() ==> !#[trigger] matches[j],
        },
    decreases matches.len() - i,
{
    if i < matches.len() && !matches[i] {
        lemma_first_match(matches, i + 1);
    }
}

/// The items that the dropdown lists, and the one it selects.
pub struct DropdownItems {
    /// The labels, in order.
    pub labels: Vec<String>,
    /// The first item stands for the current value, which no option holds.
    pub has_stale: bool,
    /// The selected item.
    pub selected: Option<usize>,
}

/// Lays out the dropdown's items: the options' labels, after an item for the
/// property's current value when no option holds it; the item selected is
/// the first whose value is the current value. `matches` tells, for each
/// option, whether its value equals the current value; `value_text` is the
/// current value as text; `value_equals_itself` is false only for a value
/// that equals nothing (a NaN), which no item then selects.
pub fn dropdown_items(labels: &Vec<String>, matches: &Vec<bool>, value_text: &str, value_equals_itself: bool) -> (r:
    DropdownItems)
    requires
        labels.len() == matches.len(),
    ensures
        r.has_stale == (first_match(matches@, 0) is None),
        r.labels@.map_values(|s: String| s@) == if r.has_stale {
            seq![stale_label(value_text@)] + labels@.map_values(|s: String| s@)
        } else {
            labels@.map_values(|s: String| s@)
        },
        r.selected == match first_match(matches@, 0) {
            Some(k) => Some(k as usize),
            None => if value_equals_itself {
                Some(0usize)
            } else {
                None
            },
        },
{
    proof {
        lemma_first_match(matches@, 0);
    }
    let mut i: usize = 0;
    while i < matches.len() && !matches[i]
        invariant
            i <= matches.len(),
            forall|j: int| 0 <= j < i ==> !#[trigger] matches@[j],
        decreases matches.len() - i,
    {
        i = i + 1;
    }
    let found: Option<usize> = if i < matches.len() {
        Some(i)
    } else {
        None
    };
    proof {
        match first_match(matches@, 0) {
            Some(k) => {
                assert(k >= i);
                if k > i {
                    assert(i < matches.len() && matches@[i as int]);
                }
            },
            None => {
                if i < matches.len() {
                    assert(matches@[i as int]);
                }
            },
        }
    }
    let mut out: Vec<String> = Vec::new();
    let has_stale = found.is_none();
    if has_stale {
        out.push(concat2(value_text, " (not an option)"));
    }
    let ghost start = out@.map_values(|s: String| s@);
    let mut j: usize = 0;
    while j < labels.len()
        invariant
            j <= labels.len(),
            out@.map_values(|s: String| s@) == start + labels@.map_values(|s: String| s@).take(j as int),
        decreases labels.len() - j,
    {
        let ghost before = out@.map_values(|s: String| s@);
        out.push(labels[j].clone());
        assert(out@.map_values(|s: String| s@) =~= before.push(labels@[j as int]@));
        assert(labels@.map_values(|s: String| s@).take(j + 1) =~= labels@.map_values(|s: String| s@).take(
            j as int,
        ).push(labels@[j as int]@));
        j = j + 1;
    }
    assert(labels@.map_values(|s: String| s@).take(labels.len() as int) =~= labels@.map_values(
        |s: String| s@,
    ));
    let selected = match found {
        Some(k) => Some(k),
        None => if value_equals_itself {
            Some(0)
        } else {
            None
        },
    };
    DropdownItems { labels: out, has_stale, selected }
}

} // verus!
