use naughty_attributes::annotation::BuiltinHint;
use naughty_attributes::attributes::drawer::DrawerAttribute;
use naughty_attributes::attributes::meta::MetaAttribute;
use naughty_attributes::constants::Constants;
use naughty_attributes::descriptor::{
    describe_property, get_script_name, is_editor_property, ClassDescriptor, HintValue,
    PropertyInfo, USAGE_CATEGORY, USAGE_EDITOR, USAGE_GROUP,
};
use naughty_attributes::edit_session::{resume, EditSession, MERGE_WINDOW_MS};
use naughty_attributes::message_bubble::{get_color_name, get_icon_name};
use naughty_attributes::naming::to_snake_case;
use naughty_attributes::naughty_attribute::{create_attribute, parse_attributes};
use naughty_attributes::property_changes::PropertyChanges;
use naughty_attributes::property_utils::{get_label, is_enabled, is_visible};
use naughty_attributes::severity::Severity;
use naughty_attributes::text::format_i64;
use naughty_attributes::variant_type::VariantType;

/// A compiler that accepts every source.
fn accepts(_source: &str) -> Option<String> {
    None
}


fn info(name: &str, hint_text: &str) -> PropertyInfo {
    PropertyInfo {
        name: name.to_string(),
        variant_type: VariantType::Int,
        hint: HintValue::NoHint,
        hint_text: hint_text.to_string(),
        usage: USAGE_EDITOR,
    }
}

#[test]
fn editor_properties_are_those_the_editor_shows() {
    assert!(is_editor_property(USAGE_EDITOR));
    assert!(is_editor_property(USAGE_EDITOR | 2));
    assert!(!is_editor_property(2));
    assert!(!is_editor_property(USAGE_EDITOR | USAGE_GROUP));
    assert!(!is_editor_property(USAGE_EDITOR | USAGE_CATEGORY));
}

#[test]
fn script_name_is_the_last_path_segment() {
    assert_eq!(get_script_name("res://scripts/player.gd"), "player.gd");
    assert_eq!(get_script_name("player.gd"), "player.gd");
    assert_eq!(get_script_name("res://scripts/"), "");
    assert_eq!(get_script_name(""), "");
}

#[test]
fn describes_a_claimed_property_with_its_attributes() {
    let constants = Constants { entries: vec![] };
    let (property, diagnostics) = describe_property(
        "res://player.gd",
        &info("hp", "range:0,100;show_if:alive;label:Health;min_value:0"),
        &constants,
        &accepts,
    );
    let property = property.unwrap();
    assert!(diagnostics.is_empty());
    assert!(property.is_naughty());
    assert_eq!(property.hint, HintValue::Builtin(BuiltinHint::Range));
    assert_eq!(property.hint_text, "0,100");
    assert_eq!(property.metas.len(), 2);
    assert_eq!(property.validators.len(), 1);
    assert_eq!(get_label(&property), Some("Health"));
}

#[test]
fn reports_what_it_cannot_read() {
    let constants = Constants { entries: vec![] };
    let (property, diagnostics) = describe_property(
        "res://player.gd",
        &info("hp", "shwo_if:a;label:   ;dropdown:[1];dropdown:[2]"),
        &constants,
        &accepts,
    );
    let property = property.unwrap();
    assert!(property.is_naughty());
    assert_eq!(
        diagnostics,
        vec![
            "res://player.gd.hp - shwo_if: unknown attribute".to_string(),
            "res://player.gd.hp - label: expected a non-empty text".to_string(),
            "res://player.gd.hp - dropdown: a property can have only one drawer, keeping the last one"
                .to_string(),
        ]
    );
    assert!(property.drawer.is_some());
}

#[test]
fn leaves_plain_and_hidden_properties_alone() {
    let constants = Constants { entries: vec![] };
    let (plain, diagnostics) =
        describe_property("res://a.gd", &info("speed", ""), &constants, &accepts);
    assert!(!plain.unwrap().is_naughty());
    assert!(diagnostics.is_empty());

    let (unclaimed, diagnostics) =
        describe_property("res://a.gd", &info("speed", "whatever"), &constants, &accepts);
    let unclaimed = unclaimed.unwrap();
    assert!(!unclaimed.is_naughty());
    assert_eq!(unclaimed.hint, HintValue::NoHint);
    assert_eq!(unclaimed.hint_text, "");
    assert_eq!(
        diagnostics,
        vec!["res://a.gd.speed - whatever: unknown attribute".to_string()]
    );

    let mut group = info("Stats", "show_if:a");
    group.usage = USAGE_GROUP;
    let (none, diagnostics) = describe_property("res://a.gd", &group, &constants, &accepts);
    assert!(none.is_none());
    assert!(diagnostics.is_empty());
}

#[test]
fn class_descriptor_keeps_the_shown_properties_in_order() {
    let constants = Constants { entries: vec![] };
    let mut group = info("Stats", "");
    group.usage = USAGE_GROUP;
    let infos = vec![
        info("speed", ""),
        group,
        info("hp", "show_if:alive"),
        info("mp", "nope:1"),
    ];
    let (class, diagnostics) =
        ClassDescriptor::from_properties("res://actors/player.gd", &infos, &constants, &accepts);
    assert_eq!(class.script_path, "res://actors/player.gd");
    assert_eq!(class.script_name, "player.gd");
    assert_eq!(class.properties.len(), 3);
    assert_eq!(class.properties[0].name, "speed");
    assert_eq!(class.properties[1].name, "hp");
    assert_eq!(class.properties[2].name, "mp");
    assert!(class.is_naughty());
    assert!(class.find("hp").unwrap().is_naughty());
    assert_eq!(class.claimed_names(), vec!["hp".to_string()]);
    assert!(class.find("Stats").is_none());
    assert_eq!(
        diagnostics,
        vec!["res://actors/player.gd.mp - nope: unknown attribute".to_string()]
    );

    let (plain_class, _) =
        ClassDescriptor::from_properties("res://a.gd", &vec![info("x", "")], &constants, &accepts);
    assert!(!plain_class.is_naughty());
}

#[test]
fn conditions_decide_visibility_and_editability() {
    let constants = Constants { entries: vec![] };
    let (property, _) = describe_property(
        "res://p.gd",
        &info("hp", "show_if:a;hide_if:b;enable_if:c;label:L"),
        &constants,
        &accepts,
    );
    let property = property.unwrap();
    let ok = |b: bool| -> Result<bool, String> { Ok(b) };

    let (visible, d) = is_visible("res://p.gd", &property, &vec![ok(true), ok(false), ok(false), ok(false)]);
    assert!(visible);
    assert!(d.is_empty());
    let (visible, _) = is_visible("res://p.gd", &property, &vec![ok(true), ok(true), ok(true), ok(true)]);
    assert!(!visible);
    let (visible, _) = is_visible("res://p.gd", &property, &vec![ok(false), ok(false), ok(true), ok(true)]);
    assert!(!visible);

    let (enabled, _) = is_enabled("res://p.gd", &property, &vec![ok(false), ok(true), ok(true), ok(false)]);
    assert!(enabled);
    let (enabled, _) = is_enabled("res://p.gd", &property, &vec![ok(true), ok(true), ok(false), ok(true)]);
    assert!(!enabled);
}

#[test]
fn a_failed_condition_is_reported_and_does_not_hide() {
    let constants = Constants { entries: vec![] };
    let (property, _) =
        describe_property("res://p.gd", &info("hp", "show_if:missing"), &constants, &accepts);
    let property = property.unwrap();
    let (visible, diagnostics) = is_visible(
        "res://p.gd",
        &property,
        &vec![Err("could not resolve 'missing'".to_string())],
    );
    assert!(visible);
    assert_eq!(
        diagnostics,
        vec!["res://p.gd.hp - show_if: could not resolve 'missing'".to_string()]
    );
}

#[test]
fn read_only_is_never_editable() {
    let constants = Constants { entries: vec![] };
    let (property, _) =
        describe_property("res://p.gd", &info("hp", "read_only:;enable_if:a"), &constants, &accepts);
    let property = property.unwrap();
    assert!(matches!(property.metas[0], MetaAttribute::ReadOnly));
    let (enabled, _) = is_enabled("res://p.gd", &property, &vec![Ok(true), Ok(true)]);
    assert!(!enabled);
    let (visible, _) = is_visible("res://p.gd", &property, &vec![Ok(true), Ok(true)]);
    assert!(visible);
}

#[test]
fn the_last_label_wins() {
    let constants = Constants { entries: vec![] };
    let (property, _) =
        describe_property("res://p.gd", &info("hp", "label:A;show_if:x;label:B"), &constants, &accepts);
    assert_eq!(get_label(&property.unwrap()), Some("B"));
    let (unlabelled, _) = describe_property("res://p.gd", &info("hp", "show_if:x"), &constants, &accepts);
    assert_eq!(get_label(&unlabelled.unwrap()), None);
}

#[test]
fn an_edit_session_merges_quick_edits_of_one_property() {
    let mut slot: Option<EditSession> = None;
    assert!(!resume(&mut slot, 7, "hp", 10, 0));
    assert_eq!(slot.as_ref().unwrap().next_version, 11);
    assert!(resume(&mut slot, 7, "hp", 11, 100));
    assert_eq!(slot.as_ref().unwrap().next_version, 11);
    assert!(!resume(&mut slot, 7, "hp", 11, MERGE_WINDOW_MS));
    assert_eq!(slot.as_ref().unwrap().next_version, 12);
    assert!(!resume(&mut slot, 7, "mp", 12, 0));
    assert_eq!(slot.as_ref().unwrap().name, "mp");
    assert!(!resume(&mut slot, 8, "mp", 13, 0));
    assert_eq!(slot.as_ref().unwrap().object, 8);

    let session = EditSession::begin(1, "x", 5);
    assert!(session.continues(1, "x", 6, MERGE_WINDOW_MS - 1));
    assert!(!session.continues(1, "x", 5, 0));
    assert!(!session.continues(2, "x", 6, 0));
}

#[test]
fn changes_of_one_property_merge_into_one() {
    let mut changes: PropertyChanges<i64> = PropertyChanges::new();
    assert_eq!(changes.len(), 0);
    changes.record("hp", 1, 2);
    changes.record("mp", 5, 6);
    changes.record("hp", 2, 3);
    assert_eq!(changes.len(), 2);
    let changes = changes.into_changes();
    assert_eq!(changes[0].name, "hp");
    assert_eq!(changes[0].old_value, 1);
    assert_eq!(changes[0].new_value, 3);
    assert_eq!(changes[1].name, "mp");
    assert_eq!(changes[1].old_value, 5);
    assert_eq!(changes[1].new_value, 6);
}

#[test]
fn attribute_keys_are_snake_case_type_names() {
    assert_eq!(to_snake_case("ShowIf"), "show_if");
    assert_eq!(to_snake_case("MinMaxSlider"), "min_max_slider");
    assert_eq!(to_snake_case("label"), "label");
    assert_eq!(to_snake_case(""), "");
}

#[test]
fn message_severities_have_theme_names() {
    assert_eq!(get_icon_name(Severity::Info), "NodeInfo");
    assert_eq!(get_icon_name(Severity::Warning), "StatusWarning");
    assert_eq!(get_icon_name(Severity::Error), "StatusError");
    assert_eq!(get_color_name(Severity::Info), "accent_color");
    assert_eq!(get_color_name(Severity::Warning), "warning_color");
    assert_eq!(get_color_name(Severity::Error), "error_color");
}

#[test]
fn integers_are_written_in_decimal() {
    assert_eq!(format_i64(0), "0");
    assert_eq!(format_i64(42), "42");
    assert_eq!(format_i64(-42), "-42");
    assert_eq!(format_i64(i64::MAX), "9223372036854775807");
    assert_eq!(format_i64(i64::MIN), "-9223372036854775808");
}

#[test]
fn the_registry_knows_no_other_key() {
    assert!(create_attribute("min_value", "3").is_none());
    assert!(create_attribute("", "").is_none());
    assert!(parse_attributes("min_value:3;label:x;no colon").is_empty());
    assert!(parse_attributes("").is_empty());
}

#[test]
fn attributes_that_do_not_compile_are_left_out() {
    let constants = Constants { entries: vec![] };
    let rejects_parentheses = |source: &str| -> Option<String> {
        if source.contains('(') {
            Some(format!("cannot compile {source}"))
        } else {
            None
        }
    };
    let (property, diagnostics) = describe_property(
        "res://p.gd",
        &info(
            "hp",
            "show_if:a;label:L;hide_if:(;min_value:f(;require:x;dropdown:[1];dropdown:g(",
        ),
        &constants,
        &rejects_parentheses,
    );
    let property = property.unwrap();
    assert_eq!(property.metas.len(), 2);
    assert!(matches!(property.metas[0], MetaAttribute::ShowIf(_)));
    assert!(matches!(property.metas[1], MetaAttribute::Label(_)));
    assert_eq!(property.validators.len(), 1);
    assert_eq!(property.validators[0].get_key(), "require");
    match &property.drawer {
        Some(DrawerAttribute::Dropdown(dropdown)) => {
            assert_eq!(dropdown.options.expression.get_text(), "[1]")
        }
        _ => panic!("the first dropdown stays"),
    }
    assert_eq!(
        diagnostics,
        vec![
            "res://p.gd.hp - hide_if: cannot compile (".to_string(),
            "res://p.gd.hp - min_value: cannot compile f(".to_string(),
            "res://p.gd.hp - dropdown: cannot compile g(".to_string(),
        ]
    );
}

#[test]
fn a_later_drawer_that_compiles_replaces_the_first() {
    let constants = Constants { entries: vec![] };
    let (property, diagnostics) = describe_property(
        "res://p.gd",
        &info("hp", "dropdown:[1];dropdown:[2]"),
        &constants,
        &accepts,
    );
    match &property.unwrap().drawer {
        Some(DrawerAttribute::Dropdown(dropdown)) => {
            assert_eq!(dropdown.options.expression.get_text(), "[2]")
        }
        _ => panic!("the last dropdown is kept"),
    }
    assert_eq!(
        diagnostics,
        vec![
            "res://p.gd.hp - dropdown: a property can have only one drawer, keeping the last one"
                .to_string()
        ]
    );
}
