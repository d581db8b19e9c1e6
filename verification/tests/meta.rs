use naughty_attributes::attributes::meta::label::Label;
use naughty_attributes::attributes::meta::on_value_changed::OnValueChanged;

#[test]
fn keeps_a_bare_comma_in_the_label() {
    assert_eq!(Label::parse("Damage, base").unwrap().text, "Damage, base");
}

#[test]
fn label_unescapes_an_escaped_semicolon() {
    assert_eq!(Label::parse(r"Damage\; base").unwrap().text, "Damage; base");
}

#[test]
fn rejects_an_empty_label() {
    assert!(Label::parse("").is_err());
    assert!(Label::parse("   ").is_err());
}

#[test]
fn trims_the_method_name() {
    assert_eq!(
        OnValueChanged::parse("  on_hp_changed  ").unwrap().method,
        "on_hp_changed"
    );
}

#[test]
fn rejects_an_empty_method_name() {
    assert!(OnValueChanged::parse("").is_err());
    assert!(OnValueChanged::parse("   ").is_err());
}

#[test]
fn rejects_a_call_instead_of_a_name() {
    assert!(OnValueChanged::parse("on_hp_changed()").is_err());
}

#[test]
fn rejects_a_name_starting_with_a_digit() {
    assert!(OnValueChanged::parse("1st_callback").is_err());
}

#[test]
fn rejects_a_non_ascii_name() {
    assert!(OnValueChanged::parse("héllo").is_err());
}

#[test]
fn on_value_changed_error_messages() {
    assert_eq!(
        OnValueChanged::parse("").err().unwrap(),
        "expected a method name"
    );
    assert_eq!(
        OnValueChanged::parse(" 1st ").err().unwrap(),
        "'1st' is not a method name"
    );
    assert_eq!(OnValueChanged::parse("_x9").unwrap().method, "_x9");
}
