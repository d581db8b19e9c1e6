//! The decisions the inspector takes for a claimed property from its meta
//! attributes: the label it shows, whether it is shown, whether it can be
//! edited.

use vstd::prelude::*;
use vstd::string::*;

use crate::attributes::meta::{meta_key, MetaAttribute, MetaView};
use crate::attributes::validator::{validator_key, ValidatorView};
use crate::descriptor::{diagnostic, PropertyDescriptor};
use crate::text::concat3;

verus! {

/// The text of the last label among `metas`.
pub open spec fn last_label(metas: Seq<MetaView>) -> Option<Seq<char>>
    decreases metas.len(),
{
    if metas.len() == 0 {
        None
    } else {
        match metas.last() {
            MetaView::Label(t) => Some(t),
            _ => last_label(metas.drop_last()),
        }
    }
}

/// The label the property shows in place of its name: the last `label`
/// attribute it has.
pub fn get_label(property: &PropertyDescriptor) -> (r: Option<&str>)
    ensures
        match r {
            Some(t) => last_label(property@.metas) == Some(t@),
            None => last_label(property@.metas) is None,
        },
{
    let mut i: usize = property.metas.len();
    assert(property@.metas.take(i as int) =~= property@.metas);
    while i > 0
        invariant
            i <= property.metas.len(),
            last_label(property@.metas) == last_label(property@.metas.take(i as int)),
        decreases i,
    {
        assert(property@.metas.take(i as int).drop_last() =~= property@.metas.take(i - 1));
        match &property.metas[i - 1] {
            MetaAttribute::Label(label) => {
                return Some(label.text.as_str());
            },
            _ => {},
        }
        i = i - 1;
    }
    None
}

/// What one meta attribute says of the property being shown, given the
/// outcome of evaluating its condition: `show_if` passes it on, `hide_if`
/// negates it, every other attribute says yes.
pub open spec fn visibility_part(m: MetaView, outcome: Result<bool, Seq<char>>) -> Result<
    bool,
    Seq<char>,
> {
    match m {
        MetaView::ShowIf(_) => outcome,
        MetaView::HideIf(_) => match outcome {
            Ok(b) => Ok(!b),
            Err(e) => Err(e),
        },
        _ => Ok(true),
    }
}

/// What one meta attribute says of the property being editable, given the
/// outcome of evaluating its condition: `enable_if` passes it on,
/// `disable_if` negates it, `read_only` says no, every other attribute says
/// yes.
pub open spec fn editability_part(m: MetaView, outcome: Result<bool, Seq<char>>) -> Result<
    bool,
    Seq<char>,
> {
    match m {
        MetaView::EnableIf(_) => outcome,
        MetaView::DisableIf(_) => match outcome {
            Ok(b) => Ok(!b),
            Err(e) => Err(e),
        },
        MetaView::ReadOnly => Ok(false),
        _ => Ok(true),
    }
}

/// Whether every part says yes, a part that failed counting as yes.
pub open spec fn all_satisfied(parts: Seq<Result<bool, Seq<char>>>) -> bool {
    forall|i: int|
        0 <= i < parts.len() ==> match #[trigger] parts[i] {
            Ok(b) => b,
            Err(_) => true,
        }
}

/// The diagnostics of the parts that failed, in order.
pub open spec fn failures(
    path: Seq<char>,
    name: Seq<char>,
    metas: Seq<MetaView>,
    parts: Seq<Result<bool, Seq<char>>>,
) -> Seq<Seq<char>>
    decreases parts.len(),
{
    if parts.len() == 0 || metas.len() < parts.len() {
        Seq::empty()
    } else {
        let rest = failures(path, name, metas, parts.drop_last());
        match parts.last() {
            Err(e) => rest.push(diagnostic(path, name, meta_key(metas[parts.len() - 1]), e)),
            Ok(_) => rest,
        }
    }
}

/// The outcomes as views.
pub open spec fn outcome_views(outcomes: Seq<Result<bool, String>>) -> Seq<Result<bool, Seq<char>>> {
    outcomes.map_values(
        |o: Result<bool, String>|
            match o {
                Ok(b) => Ok(b),
                Err(e) => Err(e@),
            },
    )
}

/// The parts that the property's meta attributes contribute.
pub open spec fn visibility_parts(metas: Seq<MetaView>, outcomes: Seq<Result<bool, Seq<char>>>) -> Seq<
    Result<bool, Seq<char>>,
> {
    Seq::new(metas.len(), |i: int| visibility_part(metas[i], outcomes[i]))
}

/// The parts that the property's meta attributes contribute.
pub open spec fn editability_parts(metas: Seq<MetaView>, outcomes: Seq<Result<bool, Seq<char>>>) -> Seq<
    Result<bool, Seq<char>>,
> {
    Seq::new(metas.len(), |i: int| editability_part(metas[i], outcomes[i]))
}

/// Whether every meta attribute agrees, given what each says; the diagnostics
/// of those that failed.
fn fold_parts(
    path: &str,
    property: &PropertyDescriptor,
    outcomes: &Vec<Result<bool, String>>,
    visibility: bool,
) -> (r: (bool, Vec<String>))
    requires
        outcomes.len() == property.metas.len(),
    ensures
        ({
            let parts = if visibility {
                visibility_parts(property@.metas, outcome_views(outcomes@))
            } else {
                editability_parts(property@.metas, outcome_views(outcomes@))
            };
            &&& r.0 == all_satisfied(parts)
            &&& r.1@.map_values(|s: String| s@) == failures(path@, property.name@, property@.metas, parts)
        }),
{
    let ghost parts = if visibility {
        visibility_parts(property@.metas, outcome_views(outcomes@))
    } else {
        editability_parts(property@.metas, outcome_views(outcomes@))
    };
    let mut satisfied = true;
    let mut diagnostics: Vec<String> = Vec::new();
    let mut i: usize = 0;
    while i < property.metas.len()
        invariant
            i <= property.metas.len(),
            outcomes.len() == property.metas.len(),
            parts.len() == property.metas.len(),
            parts == if visibility {
                visibility_parts(property@.metas, outcome_views(outcomes@))
            } else {
                editability_parts(property@.metas, outcome_views(outcomes@))
            },
            satisfied == all_satisfied(parts.take(i as int)),
            diagnostics@.map_values(|s: String| s@) == failures(
                path@,
                property.name@,
                property@.metas,
                parts.take(i as int),
            ),
        decreases property.metas.len() - i,
    {
        let meta = &property.metas[i];
        let part: Result<bool, &str> = if visibility {
            match meta {
                MetaAttribute::ShowIf(_) => match &outcomes[i] {
                    Ok(b) => Ok(*b),
                    Err(e) => Err(e.as_str()),
                },
                MetaAttribute::HideIf(_) => match &outcomes[i] {
                    Ok(b) => Ok(!*b),
                    Err(e) => Err(e.as_str()),
                },
                _ => Ok(true),
            }
        } else {
            match meta {
                MetaAttribute::EnableIf(_) => match &outcomes[i] {
                    Ok(b) => Ok(*b),
                    Err(e) => Err(e.as_str()),
                },
                MetaAttribute::DisableIf(_) => match &outcomes[i] {
                    Ok(b) => Ok(!*b),
                    Err(e) => Err(e.as_str()),
                },
                MetaAttribute::ReadOnly => Ok(false),
                _ => Ok(true),
            }
        };
        assert(parts[i as int] == match part {
            Ok(b) => Ok::<bool, Seq<char>>(b),
            Err(e) => Err(e@),
        });
        assert(parts.take(i + 1).drop_last() =~= parts.take(i as int));
        let ghost before = diagnostics@.map_values(|s: String| s@);
        match part {
            Ok(b) => {
                satisfied = satisfied && b;
            },
            Err(e) => {
                let mut m = concat3(path, ".", property.name.as_str());
                m.append(" - ");
                m.append(meta.get_key());
                m.append(": ");
                m.append(e);
                diagnostics.push(m);
                assert(diagnostics@.map_values(|s: String| s@) =~= before.push(m@));
            },
        }
        assert(satisfied == all_satisfied(parts.take(i + 1))) by {
            if satisfied {
                assert forall|j: int| 0 <= j < i + 1 implies match #[trigger] parts.take(i + 1)[j] {
                    Ok(b) => b,
                    Err(_) => true,
                } by {
                    if j < i {
                        assert(parts.take(i + 1)[j] == parts.take(i as int)[j]);
                    }
                }
            } else {
                if !all_satisfied(parts.take(i as int)) {
                    let j = choose|j: int|
                        0 <= j < i && !match #[trigger] parts.take(i as int)[j] {
                            Ok(b) => b,
                            Err(_) => true,
                        };
                    assert(parts.take(i + 1)[j] == parts.take(i as int)[j]);
                } else {
                    assert(parts.take(i + 1)[i as int] == parts[i as int]);
                }
            }
        }
        i = i + 1;
    }
    assert(parts.take(property.metas.len() as int) =~= parts);
    (satisfied, diagnostics)
}

/// Whether the property is shown, given the outcome of evaluating each meta
/// attribute's condition (in the order of the attributes; the outcome of an
/// attribute without a condition is not read): every `show_if` must hold and
/// no `hide_if` may; a condition that failed to evaluate does not hide the
/// property and gives a diagnostic.
pub fn is_visible(path: &str, property: &PropertyDescriptor, outcomes: &Vec<Result<bool, String>>) -> (r: (
    bool,
    Vec<String>,
))
    requires
        outcomes.len() == property.metas.len(),
    ensures
        r.0 == all_satisfied(visibility_parts(property@.metas, outcome_views(outcomes@))),
        r.1@.map_values(|s: String| s@) == failures(
            path@,
            property.name@,
            property@.metas,
            visibility_parts(property@.metas, outcome_views(outcomes@)),
        ),
{
    fold_parts(path, property, outcomes, true)
}

/// Whether the property can be edited, given the outcome of evaluating each
/// meta attribute's condition: every `enable_if` must hold, no `disable_if`
/// may, and there must be no `read_only`; a condition that failed to evaluate
/// does not lock the property and gives a diagnostic.
pub fn is_enabled(path: &str, property: &PropertyDescriptor, outcomes: &Vec<Result<bool, String>>) -> (r: (
    bool,
    Vec<String>,
))
    requires
        outcomes.len() == property.metas.len(),
    ensures
        r.0 == all_satisfied(editability_parts(property@.metas, outcome_views(outcomes@))),
        r.1@.map_values(|s: String| s@) == failures(
            path@,
            property.name@,
            property@.metas,
            editability_parts(property@.metas, outcome_views(outcomes@)),
        ),
{
    fold_parts(path, property, outcomes, false)
}

/// What one meta attribute's callback gave: `on_value_changed` passes on the
/// outcome of its call, every other attribute calls nothing.
pub open spec fn callback_part(m: MetaView, outcome: Result<(), Seq<char>>) -> Result<bool, Seq<char>> {
    match m {
        MetaView::OnValueChanged(_) => match outcome {
            Ok(()) => Ok(true),
            Err(e) => Err(e),
        },
        _ => Ok(true),
    }
}

/// The outcomes of the callbacks as views.
pub open spec fn callback_outcome_views(outcomes: Seq<Result<(), String>>) -> Seq<Result<(), Seq<char>>> {
    outcomes.map_values(
        |o: Result<(), String>|
            match o {
                Ok(()) => Ok(()),
                Err(e) => Err(e@),
            },
    )
}

/// The parts that the callbacks contribute.
pub open spec fn callback_parts(metas: Seq<MetaView>, outcomes: Seq<Result<(), Seq<char>>>) -> Seq<
    Result<bool, Seq<char>>,
> {
    Seq::new(metas.len(), |i: int| callback_part(metas[i], outcomes[i]))
}

/// The diagnostics of the value-changed callbacks that failed, given the
/// outcome of calling each meta attribute's callback (in the order of the
/// attributes; the outcome of an attribute without a callback is not read).
pub fn callback_failures(path: &str, property: &PropertyDescriptor, outcomes: &Vec<Result<(), String>>) -> (r:
    Vec<String>)
    requires
        outcomes.len() == property.metas.len(),
    ensures
        r@.map_values(|s: String| s@) == failures(
            path@,
            property.name@,
            property@.metas,
            callback_parts(property@.metas, callback_outcome_views(outcomes@)),
        ),
{
    let ghost parts = callback_parts(property@.metas, callback_outcome_views(outcomes@));
    let mut diagnostics: Vec<String> = Vec::new();
    let mut i: usize = 0;
    while i < property.metas.len()
        invariant
            i <= property.metas.len(),
            outcomes.len() == property.metas.len(),
            parts == callback_parts(property@.metas, callback_outcome_views(outcomes@)),
            diagnostics@.map_values(|s: String| s@) == failures(
                path@,
                property.name@,
                property@.metas,
                parts.take(i as int),
            ),
        decreases property.metas.len() - i,
    {
        assert(parts.take(i + 1).drop_last() =~= parts.take(i as int));
        assert(parts.take(i + 1).last() == parts[i as int]);
        let ghost before = diagnostics@.map_values(|s: String| s@);
        let meta = &property.metas[i];
        match meta {
            MetaAttribute::OnValueChanged(_) => match &outcomes[i] {
                Ok(()) => {},
                Err(e) => {
                    let mut m = concat3(path, ".", property.name.as_str());
                    m.append(" - ");
                    m.append(meta.get_key());
                    m.append(": ");
                    m.append(e.as_str());
                    diagnostics.push(m);
                    assert(diagnostics@.map_values(|s: String| s@) =~= before.push(m@));
                },
            },
            _ => {},
        }
        i = i + 1;
    }
    assert(parts.take(property.metas.len() as int) =~= parts);
    diagnostics
}

/// The diagnostics of the validators that failed to run: for each failed
/// outcome, in order, `path.name - key: error` with the validator's key.
pub open spec fn validation_failures_of(
    path: Seq<char>,
    name: Seq<char>,
    validators: Seq<ValidatorView>,
    outcomes: Seq<Result<(), Seq<char>>>,
) -> Seq<Seq<char>>
    decreases outcomes.len(),
{
    if outcomes.len() == 0 || validators.len() < outcomes.len() {
        Seq::empty()
    } else {
        let rest = validation_failures_of(path, name, validators, outcomes.drop_last());
        match outcomes.last() {
            Err(e) => rest.push(diagnostic(path, name, validator_key(validators[outcomes.len() - 1]), e)),
            Ok(()) => rest,
        }
    }
}

/// The diagnostics of the property's validators that failed to run, given
/// the outcome of running each (in the order of the validators).
pub fn validation_failures(path: &str, property: &PropertyDescriptor, outcomes: &Vec<Result<(), String>>) -> (r:
    Vec<String>)
    requires
        outcomes.len() == property.validators.len(),
    ensures
        r@.map_values(|s: String| s@) == validation_failures_of(
            path@,
            property.name@,
            property@.validators,
            callback_outcome_views(outcomes@),
        ),
{
    let ghost views = callback_outcome_views(outcomes@);
    let mut diagnostics: Vec<String> = Vec::new();
    let mut i: usize = 0;
    while i < property.validators.len()
        invariant
            i <= property.validators.len(),
            outcomes.len() == property.validators.len(),
            views == callback_outcome_views(outcomes@),
            diagnostics@.map_values(|s: String| s@) == validation_failures_of(
                path@,
                property.name@,
                property@.validators,
                views.take(i as int),
            ),
        decreases property.validators.len() - i,
    {
        assert(views.take(i + 1).drop_last() =~= views.take(i as int));
        assert(views.take(i + 1).last() == views[i as int]);
        let ghost before = diagnostics@.map_values(|s: String| s@);
        match &outcomes[i] {
            Ok(()) => {},
            Err(e) => {
                let mut m = concat3(path, ".", property.name.as_str());
                m.append(" - ");
                m.append(property.validators[i].get_key());
                m.append(": ");
                m.append(e.as_str());
                diagnostics.push(m);
                assert(diagnostics@.map_values(|s: String| s@) =~= before.push(m@));
            },
        }
        i = i + 1;
    }
    assert(views.take(property.validators.len() as int) =~= views);
    diagnostics
}

/// A property with a `read_only` attribute can never be edited, whatever its
/// conditions give.
pub proof fn lemma_read_only_is_never_editable(
    metas: Seq<MetaView>,
    outcomes: Seq<Result<bool, Seq<char>>>,
    k: int,
)
    requires
        0 <= k < metas.len(),
        metas[k] == MetaView::ReadOnly,
    ensures
        !all_satisfied(editability_parts(metas, outcomes)),
{
    let parts = editability_parts(metas, outcomes);
    assert(parts[k] == Ok::<bool, Seq<char>>(false));
}

/// A property without `show_if` and `hide_if` is always shown.
pub proof fn lemma_unconditional_property_is_visible(
    metas: Seq<MetaView>,
    outcomes: Seq<Result<bool, Seq<char>>>,
)
    requires
        forall|i: int| 0 <= i < metas.len() ==> !(#[trigger] metas[i] is ShowIf) && !(metas[i] is HideIf),
    ensures
        all_satisfied(visibility_parts(metas, outcomes)),
{
    let parts = visibility_parts(metas, outcomes);
    assert forall|i: int| 0 <= i < parts.len() implies match #[trigger] parts[i] {
        Ok(b) => b,
        Err(_) => true,
    } by {
        assert(!(metas[i] is ShowIf) && !(metas[i] is HideIf));
    }
}

/// A condition that fails to evaluate never hides a property: it counts as
/// met, and the failure is reported.
pub proof fn lemma_failed_condition_does_not_hide(
    metas: Seq<MetaView>,
    outcomes: Seq<Result<bool, Seq<char>>>,
    k: int,
    e: Seq<char>,
)
    requires
        0 <= k < metas.len(),
        metas.len() == outcomes.len(),
        all_satisfied(visibility_parts(metas, outcomes)),
    ensures
        all_satisfied(visibility_parts(metas, outcomes.update(k, Err(e)))),
{
    let before = visibility_parts(metas, outcomes);
    let after = visibility_parts(metas, outcomes.update(k, Err(e)));
    assert forall|i: int| 0 <= i < after.len() implies match #[trigger] after[i] {
        Ok(b) => b,
        Err(_) => true,
    } by {
        if i != k {
            assert(after[i] == before[i]);
        }
    }
}

/// `disable_if` locks the property exactly while its condition holds: a
/// lone `disable_if` whose condition gave `Ok(b)` leaves the property
/// editable iff `!b`, the opposite of a lone `enable_if` with the same
/// outcome; a `disable_if` whose condition holds locks the property whatever
/// the other attributes say.
pub proof fn lemma_disable_if_locks_while_its_condition_holds(
    c: Seq<char>,
    b: bool,
    metas: Seq<MetaView>,
    outcomes: Seq<Result<bool, Seq<char>>>,
    k: int,
)
    requires
        0 <= k < metas.len(),
        metas.len() == outcomes.len(),
        metas[k] == MetaView::DisableIf(c),
        outcomes[k] == Ok::<bool, Seq<char>>(true),
    ensures
        all_satisfied(editability_parts(seq![MetaView::DisableIf(c)], seq![Ok::<bool, Seq<char>>(b)]))
            == !b,
        all_satisfied(editability_parts(seq![MetaView::EnableIf(c)], seq![Ok::<bool, Seq<char>>(b)]))
            == b,
        !all_satisfied(editability_parts(metas, outcomes)),
{
    let lone = editability_parts(seq![MetaView::DisableIf(c)], seq![Ok::<bool, Seq<char>>(b)]);
    assert(lone[0] == Ok::<bool, Seq<char>>(!b));
    let lone_enable = editability_parts(seq![MetaView::EnableIf(c)], seq![Ok::<bool, Seq<char>>(b)]);
    assert(lone_enable[0] == Ok::<bool, Seq<char>>(b));
    let parts = editability_parts(metas, outcomes);
    assert(parts[k] == Ok::<bool, Seq<char>>(false));
}

/// `hide_if` hides the property exactly while its condition holds, the
/// opposite of `show_if`; a `hide_if` whose condition holds hides the
/// property whatever the other attributes say.
pub proof fn lemma_hide_if_hides_while_its_condition_holds(
    c: Seq<char>,
    b: bool,
    metas: Seq<MetaView>,
    outcomes: Seq<Result<bool, Seq<char>>>,
    k: int,
)
    requires
        0 <= k < metas.len(),
        metas.len() == outcomes.len(),
        metas[k] == MetaView::HideIf(c),
        outcomes[k] == Ok::<bool, Seq<char>>(true),
    ensures
        all_satisfied(visibility_parts(seq![MetaView::HideIf(c)], seq![Ok::<bool, Seq<char>>(b)])) == !b,
        all_satisfied(visibility_parts(seq![MetaView::ShowIf(c)], seq![Ok::<bool, Seq<char>>(b)])) == b,
        !all_satisfied(visibility_parts(metas, outcomes)),
{
    let lone = visibility_parts(seq![MetaView::HideIf(c)], seq![Ok::<bool, Seq<char>>(b)]);
    assert(lone[0] == Ok::<bool, Seq<char>>(!b));
    let lone_show = visibility_parts(seq![MetaView::ShowIf(c)], seq![Ok::<bool, Seq<char>>(b)]);
    assert(lone_show[0] == Ok::<bool, Seq<char>>(b));
    let parts = visibility_parts(metas, outcomes);
    assert(parts[k] == Ok::<bool, Seq<char>>(false));
}

} // verus!
