use naughty_attributes::annotation::{
    builtin_hint_from_key, first_unescaped, split_args, split_unescaped, trim_builtin_args,
    unescape, BuiltinHint, PropertyAnnotation,
};

fn known(key: &str) -> bool {
    matches!(key, "show_if" | "min_value" | "info_box")
}

#[test]
fn splits_entries_on_semicolons() {
    let annotation = PropertyAnnotation::parse("show_if:a;min_value:3", known);
    assert_eq!(annotation.attributes.len(), 2);
    assert_eq!(annotation.attributes[0].key, "show_if");
    assert_eq!(annotation.attributes[0].raw_args, "a");
    assert_eq!(annotation.attributes[1].key, "min_value");
}

#[test]
fn splits_key_on_first_colon_only() {
    let annotation = PropertyAnnotation::parse("show_if:kind == Weapon.MELEE", known);
    assert_eq!(annotation.attributes[0].raw_args, "kind == Weapon.MELEE");

    let annotation = PropertyAnnotation::parse("show_if:a ? b : c", known);
    assert_eq!(annotation.attributes[0].raw_args, "a ? b : c");
}

#[test]
fn keeps_commas_inside_unsplit_args() {
    let annotation = PropertyAnnotation::parse(r#"show_if:has_item("sword", 2)"#, known);
    assert_eq!(annotation.attributes[0].raw_args, r#"has_item("sword", 2)"#);
}

#[test]
fn recognises_builtin_hints() {
    let annotation = PropertyAnnotation::parse("range:0,10,0.1", known);
    assert_eq!(
        annotation.builtin,
        Some(("range".to_string(), "0,10,0.1".to_string()))
    );
    assert!(annotation.attributes.is_empty());
    assert!(annotation.is_claimed());
}

#[test]
fn builtin_args_are_taken_verbatim() {
    let annotation = PropertyAnnotation::parse("enum:One,Two,Three;show_if:a", known);
    assert_eq!(annotation.builtin.unwrap().1, "One,Two,Three");
    assert_eq!(annotation.attributes.len(), 1);
}

#[test]
fn empty_builtin_args_are_allowed() {
    let annotation = PropertyAnnotation::parse("multiline:", known);
    assert_eq!(
        annotation.builtin,
        Some(("multiline".to_string(), String::new()))
    );
    assert!(annotation.is_claimed());
}

#[test]
fn unknown_keys_are_collected_not_claimed() {
    let annotation = PropertyAnnotation::parse("shwo_if:a", known);
    assert_eq!(annotation.unknown_keys, vec!["shwo_if".to_string()]);
    assert!(!annotation.is_claimed());
}

#[test]
fn plain_hint_strings_are_not_claimed() {
    assert!(!PropertyAnnotation::parse("", known).is_claimed());
    assert!(!PropertyAnnotation::parse("2:", known).is_claimed());
}

#[test]
fn splits_args_on_unescaped_commas() {
    assert_eq!(split_args("Careful, really"), vec!["Careful", "really"]);
    assert_eq!(
        split_args(r"Careful\, really"),
        vec!["Careful, really".to_string()]
    );
}

#[test]
fn escaped_delimiters_survive_entry_splitting() {
    let annotation = PropertyAnnotation::parse(r"info_box:one\;two", known);
    assert_eq!(annotation.attributes.len(), 1);
    assert_eq!(
        split_args(&annotation.attributes[0].raw_args),
        vec!["one;two"]
    );
}

#[test]
fn unescape_resolves_escapes() {
    assert_eq!(unescape(r"a\,b"), "a,b");
    assert_eq!(unescape(r"a\;b"), "a;b");
    assert_eq!(unescape(r"a\\b"), r"a\b");
}

#[test]
fn tolerates_whitespace_around_delimiters() {
    let annotation = PropertyAnnotation::parse(
        "show_if : (level>5&&is_weapon)||kind==Weapon.MAGIC ;    range  : 0 ,   10,   0.1",
        known,
    );

    assert_eq!(annotation.attributes.len(), 1);
    assert_eq!(annotation.attributes[0].key, "show_if");
    assert_eq!(
        annotation.attributes[0].raw_args,
        "(level>5&&is_weapon)||kind==Weapon.MAGIC"
    );
    assert_eq!(
        annotation.builtin,
        Some(("range".to_string(), "0,10,0.1".to_string()))
    );
}

#[test]
fn builtin_args_keep_internal_spaces() {
    let annotation = PropertyAnnotation::parse("enum: One , Two Three , Four", known);
    assert_eq!(annotation.builtin.unwrap().1, "One,Two Three,Four");
}

const ALL_HINTS: [BuiltinHint; 31] = [
    BuiltinHint::Range,
    BuiltinHint::Enum,
    BuiltinHint::EnumSuggestion,
    BuiltinHint::ExpEasing,
    BuiltinHint::Link,
    BuiltinHint::Flags,
    BuiltinHint::Layers2dRender,
    BuiltinHint::Layers2dPhysics,
    BuiltinHint::Layers2dNavigation,
    BuiltinHint::Layers3dRender,
    BuiltinHint::Layers3dPhysics,
    BuiltinHint::Layers3dNavigation,
    BuiltinHint::LayersAvoidance,
    BuiltinHint::File,
    BuiltinHint::Dir,
    BuiltinHint::GlobalFile,
    BuiltinHint::GlobalDir,
    BuiltinHint::ResourceType,
    BuiltinHint::MultilineText,
    BuiltinHint::Expression,
    BuiltinHint::PlaceholderText,
    BuiltinHint::ColorNoAlpha,
    BuiltinHint::TypeString,
    BuiltinHint::NodePathValidTypes,
    BuiltinHint::SaveFile,
    BuiltinHint::GlobalSaveFile,
    BuiltinHint::NodeType,
    BuiltinHint::HideQuaternionEdit,
    BuiltinHint::Password,
    BuiltinHint::LocaleId,
    BuiltinHint::LocalizableString,
];

#[test]
fn every_builtin_key_resolves() {
    for hint in ALL_HINTS {
        assert_eq!(builtin_hint_from_key(hint.key()), Some(hint));
    }
    assert!(builtin_hint_from_key("definitely_not_a_hint").is_none());
}

#[test]
fn split_unescaped_keeps_escapes_in_the_parts() {
    assert_eq!(split_unescaped(r"a\;b;c", ';'), vec![r"a\;b", "c"]);
    assert_eq!(split_unescaped("", ';'), vec![""]);
    assert_eq!(split_unescaped(";", ';'), vec!["", ""]);
    assert_eq!(split_unescaped(r"a\", ';'), vec![r"a\"]);
}

#[test]
fn first_unescaped_counts_bytes() {
    assert_eq!(first_unescaped("ab:c", ':'), Some(2));
    assert_eq!(first_unescaped(r"a\:b:c", ':'), Some(4));
    assert_eq!(first_unescaped("é:x", ':'), Some(2));
    assert_eq!(first_unescaped(r"a\:", ':'), None);
}

#[test]
fn trim_builtin_args_does_not_honour_escapes() {
    assert_eq!(trim_builtin_args(r" a\, b ,c "), r"a\,b,c");
    assert_eq!(trim_builtin_args(""), "");
}

#[test]
fn unescape_drops_a_trailing_backslash() {
    assert_eq!(unescape(r"abc\"), "abc");
}

#[test]
fn builtin_hint_of_a_claimed_annotation() {
    let annotation = PropertyAnnotation::parse("file:*.png;show_if:a", known);
    assert_eq!(annotation.get_builtin_hint(), Some(BuiltinHint::File));
    assert_eq!(annotation.get_builtin_hint_text(), "*.png");
    let plain = PropertyAnnotation::parse("show_if:a", known);
    assert_eq!(plain.get_builtin_hint(), None);
    assert_eq!(plain.get_builtin_hint_text(), "");
}

#[test]
fn splitting_then_joining_gives_the_text_back() {
    for text in [
        r"show_if:a;label:x\;y;;",
        r"a\",
        "",
        r"one\\;two",
    ] {
        let parts = split_unescaped(text, ';');
        assert_eq!(parts.join(";"), text);
    }
}

#[test]
fn escaped_and_joined_arguments_read_back() {
    let args = vec![r"a,b".to_string(), r"c\d".to_string(), "".to_string(), "e f".to_string()];
    let raw = r"a\,b, c\\d, , e f";
    assert_eq!(split_args(raw), args);
}

#[test]
fn the_first_unescaped_delimiter_ends_the_first_part() {
    let text = r"é\;b;c;d";
    let parts = split_unescaped(text, ';');
    assert_eq!(parts, vec![r"é\;b", "c", "d"]);
    let at = first_unescaped(text, ';').unwrap();
    assert_eq!(&text[..at], parts[0]);
    for part in &parts {
        assert_eq!(first_unescaped(part, ';'), None);
    }
    assert_eq!(split_unescaped("plain", ';'), vec!["plain"]);
    assert_eq!(first_unescaped("plain", ';'), None);
}
