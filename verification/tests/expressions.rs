use naughty_attributes::condition::normalize;
use naughty_attributes::expression::normalize_operators;

#[test]
fn condition_inserts_spaces_around_replaced_operators() {
    assert_eq!(normalize("a&&b"), "a and b");
    assert_eq!(normalize("a||b"), "a or b");
    assert_eq!(
        normalize("(level>5&&is_weapon)||kind==Weapon.MAGIC"),
        "(level>5 and is_weapon) or kind==Weapon.MAGIC"
    );
    assert_eq!(
        normalize("(level > 5&&is_weapon)||kind == Weapon.MAGIC"),
        "(level > 5 and is_weapon) or kind == Weapon.MAGIC"
    );
}

#[test]
fn condition_leaves_spaced_operators_usable() {
    assert_eq!(normalize("a && b"), "a  and  b");
    assert_eq!(normalize("a || b"), "a  or  b");
}

#[test]
fn condition_leaves_keyword_forms_alone() {
    assert_eq!(normalize("a and b"), "a and b");
    assert_eq!(normalize("!a"), "!a");
}

#[test]
fn condition_does_not_touch_string_literals() {
    assert_eq!(
        normalize(r#"has_item("a&&b") || x"#),
        r#"has_item("a&&b")  or  x"#
    );
}

#[test]
fn condition_leaves_single_ampersand_alone() {
    assert_eq!(normalize("flags & 4 != 0"), "flags & 4 != 0");
}

#[test]
fn expression_inserts_spaces_around_replaced_operators() {
    assert_eq!(normalize_operators("a&&b"), "a and b");
    assert_eq!(normalize_operators("a||b"), "a or b");
    assert_eq!(
        normalize_operators("(level>5&&is_weapon)||kind==Weapon.MAGIC"),
        "(level>5 and is_weapon) or kind==Weapon.MAGIC"
    );
    assert_eq!(
        normalize_operators("(level > 5&&is_weapon)||kind == Weapon.MAGIC"),
        "(level > 5 and is_weapon) or kind == Weapon.MAGIC"
    );
}

#[test]
fn expression_leaves_spaced_operators_usable() {
    assert_eq!(normalize_operators("a && b"), "a  and  b");
    assert_eq!(normalize_operators("a || b"), "a  or  b");
}

#[test]
fn expression_leaves_keyword_forms_alone() {
    assert_eq!(normalize_operators("a and b"), "a and b");
    assert_eq!(normalize_operators("!a"), "!a");
}

#[test]
fn expression_does_not_touch_string_literals() {
    assert_eq!(
        normalize_operators(r#"has_item("a&&b") || x"#),
        r#"has_item("a&&b")  or  x"#
    );
}

#[test]
fn expression_leaves_single_ampersand_alone() {
    assert_eq!(normalize_operators("flags & 4 != 0"), "flags & 4 != 0");
}

#[test]
fn escapes_inside_literals_are_kept() {
    assert_eq!(normalize_operators(r#"'it\'s&&' && b"#), r#"'it\'s&&'  and  b"#);
    assert_eq!(normalize_operators("a&&&b"), "a and &b");
    assert_eq!(normalize_operators("a|||b"), "a or |b");
}

#[test]
fn normalizing_twice_changes_nothing() {
    for text in ["a&&b||c", "a&&&b", r#""x&&y"&&z"#, "a || b"] {
        let once = normalize_operators(text);
        assert_eq!(normalize_operators(&once), once);
    }
}
