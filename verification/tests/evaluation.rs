use naughty_attributes::attributes::drawer::dropdown::{dropdown_items, Dropdown};
use naughty_attributes::attributes::meta::on_value_changed::OnValueChanged;
use naughty_attributes::attributes::ParseContext;
use naughty_attributes::clamping::{clamp_components, clamp_i32, clamp_i64, clamp_kind, ClampKind};
use naughty_attributes::constants::Constants;
use naughty_attributes::descriptor::{describe_property, HintValue, PropertyInfo, USAGE_EDITOR};
use naughty_attributes::edit_session::{EditSession, EditedChange, UndoStep};
use naughty_attributes::expression::{check_number, Expression};
use naughty_attributes::expressions::options_expression::OptionsExpression;
use naughty_attributes::member::{member_tool_hint, resolve, MemberSource};
use naughty_attributes::property_changes::{needs_sync, PropertyChanges};
use naughty_attributes::property_utils::{callback_failures, is_visible, validation_failures};
use naughty_attributes::variant_type::VariantType;

/// A compiler that accepts every source.
fn accepts(_source: &str) -> Option<String> {
    None
}


#[test]
fn clamp_kinds_follow_the_value_type() {
    assert_eq!(clamp_kind(VariantType::Int, "int"), Ok(ClampKind::Int));
    assert_eq!(clamp_kind(VariantType::Float, "float"), Ok(ClampKind::Float));
    assert_eq!(
        clamp_kind(VariantType::Vector3, "Vector3"),
        Ok(ClampKind::RealVector)
    );
    assert_eq!(
        clamp_kind(VariantType::Vector2i, "Vector2i"),
        Ok(ClampKind::IntVector)
    );
    assert_eq!(
        clamp_kind(VariantType::String, "String"),
        Err("cannot clamp a value of type String".to_string())
    );
}

#[test]
fn integers_are_raised_then_lowered() {
    assert_eq!(clamp_i64(5, 0, 10), 5);
    assert_eq!(clamp_i64(-5, 0, 10), 0);
    assert_eq!(clamp_i64(50, 0, 10), 10);
    assert_eq!(clamp_i64(5, 10, 0), 0);
    assert_eq!(clamp_i64(i64::MIN, i64::MIN, i64::MAX), i64::MIN);
    assert_eq!(clamp_i32(7, 8, 9), 8);
    assert_eq!(clamp_components(&vec![-3, 4, 12], 0, 10), vec![0, 4, 10]);
    let once = clamp_components(&vec![-3, 4, 12], 0, 10);
    assert_eq!(clamp_components(&once, 0, 10), once);
}

#[test]
fn evaluation_errors_name_the_expression() {
    let call = Expression::new("level()");
    assert_eq!(
        call.execution_error("Invalid call", false),
        "'level()' - Invalid call (calling a method needs @tool on the script)"
    );
    assert_eq!(
        call.execution_error("Invalid call", true),
        "'level()' - Invalid call"
    );
    let plain = Expression::new("level");
    assert_eq!(
        plain.execution_error("Invalid named index", false),
        "'level' - Invalid named index"
    );
    assert_eq!(plain.check_number(VariantType::Int, "int"), Ok(()));
    assert_eq!(plain.check_number(VariantType::Float, "float"), Ok(()));
    assert_eq!(
        plain.check_number(VariantType::String, "String"),
        Err("'level' is String, not a number".to_string())
    );
    assert_eq!(
        check_number("hp", VariantType::Bool, "bool"),
        Err("'hp' is bool, not a number".to_string())
    );
}

#[test]
fn options_must_be_a_non_empty_collection() {
    let constants = Constants { entries: vec![] };
    let context = ParseContext {
        variant_type: VariantType::Int,
        constants: &constants,
    };
    let options = OptionsExpression::parse("choices", &context, &accepts).ok().unwrap();
    assert_eq!(options.check_value(VariantType::Array, "Array", 3), Ok(()));
    assert_eq!(
        options.check_value(VariantType::Dictionary, "Dictionary", 1),
        Ok(())
    );
    assert_eq!(
        options.check_value(VariantType::Int, "int", 3),
        Err("'choices' is int, not an Array or a Dictionary".to_string())
    );
    assert_eq!(
        options.check_value(VariantType::Array, "Array", 0),
        Err("'choices' is empty".to_string())
    );
}

#[test]
fn dropdown_names_the_first_option_it_cannot_hold() {
    let constants = Constants { entries: vec![] };
    let context = ParseContext {
        variant_type: VariantType::Int,
        constants: &constants,
    };
    let dropdown = Dropdown::parse("choices", &context, &accepts).ok().unwrap();
    let labels = vec!["1".to_string(), "x".to_string(), "true".to_string()];
    let types = vec![VariantType::Int, VariantType::String, VariantType::Bool];
    let kinds = vec!["int".to_string(), "String".to_string(), "bool".to_string()];
    assert_eq!(
        dropdown.check_options(&labels, &types, &kinds, "int"),
        Err("option 'x' is String, not int".to_string())
    );
    let good_types = vec![VariantType::Int, VariantType::Float, VariantType::Int];
    assert_eq!(
        dropdown.check_options(&labels, &good_types, &kinds, "int"),
        Ok(())
    );
}

#[test]
fn members_are_called_or_read() {
    assert_eq!(resolve("level", true, false, true, false), Ok(MemberSource::Method));
    assert_eq!(
        resolve("level", true, true, false, false),
        Err("'level' must be a method that takes no arguments".to_string())
    );
    assert_eq!(resolve("hp", false, false, false, false), Ok(MemberSource::Property));
    assert_eq!(
        resolve("hp", false, false, true, false),
        Err(
            "could not resolve 'hp' to a property or a parameterless method (calling a method needs @tool on the script)"
                .to_string()
        )
    );
    assert_eq!(
        resolve("hp", false, false, true, true),
        Err("could not resolve 'hp' to a property or a parameterless method".to_string())
    );
    assert_eq!(member_tool_hint(true), "");
}

#[test]
fn callbacks_report_their_failures() {
    let callback = OnValueChanged::parse("on_hp_changed").unwrap();
    assert_eq!(callback.call_outcome(true, "", Ok(())), Ok(()));
    assert_eq!(
        callback.call_outcome(false, " (calling a method needs @tool on the script)", Ok(())),
        Err(
            "'on_hp_changed' is not a method of the script (calling a method needs @tool on the script)"
                .to_string()
        )
    );
    assert_eq!(
        callback.call_outcome(true, "", Err("Invalid call".to_string())),
        Err(
            "Invalid call (expected a callback with two arguments: old_value, new_value)"
                .to_string()
        )
    );

    let constants = Constants { entries: vec![] };
    let info = PropertyInfo {
        name: "hp".to_string(),
        variant_type: VariantType::Int,
        hint: HintValue::NoHint,
        hint_text: "label:HP;on_value_changed:on_hp_changed".to_string(),
        usage: USAGE_EDITOR,
    };
    let (property, _) = describe_property("res://p.gd", &info, &constants, &accepts);
    let property = property.unwrap();
    assert!(callback_failures("res://p.gd", &property, &vec![Err("x".to_string()), Ok(())]).is_empty());
    assert_eq!(
        callback_failures("res://p.gd", &property, &vec![Ok(()), Err("boom".to_string())]),
        vec!["res://p.gd.hp - on_value_changed: boom".to_string()]
    );
}

#[test]
fn only_real_changes_are_committed() {
    let mut changes: PropertyChanges<i64> = PropertyChanges::new();
    changes.record("hp", 1, 2);
    changes.record("mp", 5, 6);
    changes.record("hp", 2, 1);
    let kept = changes.into_changed(|a: &i64, b: &i64| a == b);
    assert_eq!(kept.len(), 1);
    assert_eq!(kept[0].name, "mp");
    assert_eq!(kept[0].old_value, 5);
    assert_eq!(kept[0].new_value, 6);
}

#[test]
fn editors_are_rebuilt_when_more_than_the_edit_changed() {
    let only_hp = vec!["hp".to_string()];
    let hp_and_mp = vec!["hp".to_string(), "mp".to_string()];
    assert!(!needs_sync(true, false, &only_hp, "hp"));
    assert!(!needs_sync(true, false, &vec![], "hp"));
    assert!(needs_sync(true, false, &hp_and_mp, "hp"));
    assert!(needs_sync(true, true, &only_hp, "hp"));
    assert!(needs_sync(false, false, &only_hp, "hp"));
}

#[test]
fn merged_undo_keeps_the_origin_of_side_effects() {
    let session = EditSession::begin(1, "hp", 3);
    let change = |name: &str, unchanged: bool, corrected: bool, has_origin: bool| EditedChange {
        name: name.to_string(),
        unchanged,
        corrected,
        has_origin,
    };
    let changes = vec![
        change("hp", false, false, true),
        change("mp", false, false, true),
        change("sp", true, false, true),
        change("xp", false, false, false),
    ];
    assert_eq!(
        session.undo_plan(&changes),
        vec![
            UndoStep::Do(1),
            UndoStep::UndoToOrigin(1),
            UndoStep::Do(3),
            UndoStep::UndoToOld(3),
        ]
    );
    assert_eq!(
        session.undo_plan(&vec![change("hp", false, true, true)]),
        vec![UndoStep::Do(0)]
    );
}

#[test]
fn validators_that_fail_are_reported_by_key() {
    let constants = Constants { entries: vec![] };
    let info = PropertyInfo {
        name: "hp".to_string(),
        variant_type: VariantType::Int,
        hint: HintValue::NoHint,
        hint_text: "min_value:0;require:hp < max_hp".to_string(),
        usage: USAGE_EDITOR,
    };
    let (property, _) = describe_property("res://p.gd", &info, &constants, &accepts);
    let property = property.unwrap();
    assert!(validation_failures("res://p.gd", &property, &vec![Ok(()), Ok(())]).is_empty());
    assert_eq!(
        validation_failures(
            "res://p.gd",
            &property,
            &vec![Err("a".to_string()), Err("b".to_string())]
        ),
        vec![
            "res://p.gd.hp - min_value: a".to_string(),
            "res://p.gd.hp - require: b".to_string()
        ]
    );
}

#[test]
fn a_property_without_visibility_conditions_is_shown() {
    let constants = Constants { entries: vec![] };
    let info = PropertyInfo {
        name: "hp".to_string(),
        variant_type: VariantType::Int,
        hint: HintValue::NoHint,
        hint_text: "label:HP;enable_if:alive;read_only".to_string(),
        usage: USAGE_EDITOR,
    };
    let (property, _) = describe_property("res://p.gd", &info, &constants, &accepts);
    let property = property.unwrap();
    let (visible, diagnostics) = is_visible(
        "res://p.gd",
        &property,
        &vec![Ok(false), Err("x".to_string()), Ok(false)],
    );
    assert!(visible);
    assert!(diagnostics.is_empty());
}

#[test]
fn dropdown_lists_a_stale_value_first() {
    let labels = vec!["Low".to_string(), "High".to_string()];
    let items = dropdown_items(&labels, &vec![false, true], "2", true);
    assert!(!items.has_stale);
    assert_eq!(items.labels, labels);
    assert_eq!(items.selected, Some(1));

    let stale = dropdown_items(&labels, &vec![false, false], "7", true);
    assert!(stale.has_stale);
    assert_eq!(
        stale.labels,
        vec!["7 (not an option)".to_string(), "Low".to_string(), "High".to_string()]
    );
    assert_eq!(stale.selected, Some(0));

    let nan = dropdown_items(&labels, &vec![false, false], "nan", false);
    assert!(nan.has_stale);
    assert_eq!(nan.selected, None);
}
