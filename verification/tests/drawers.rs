use naughty_attributes::attributes::drawer::dropdown::{is_assignable, Dropdown};
use naughty_attributes::attributes::drawer::enum_flags::{build_hint_text, get_members, EnumFlags};
use naughty_attributes::attributes::drawer::min_max_slider::MinMaxSlider;
use naughty_attributes::attributes::drawer::DrawerAttribute;
use naughty_attributes::attributes::validator::max_value::MaxValue;
use naughty_attributes::attributes::validator::min_value::MinValue;
use naughty_attributes::attributes::validator::require::Require;
use naughty_attributes::attributes::validator::ValidatorAttribute;
use naughty_attributes::attributes::{is_known_key, NaughtyAttribute, ParseContext};
use naughty_attributes::constants::{
    Constant, ConstantValue, Constants, DictionaryEntry, MemberValue,
};
use naughty_attributes::expressions::number_expression::NumberExpression;
use naughty_attributes::expressions::options_expression::OptionsExpression;
use naughty_attributes::variant_type::VariantType;

/// A compiler that accepts every source.
fn accepts(_source: &str) -> Option<String> {
    None
}


fn element_constants() -> Constants {
    Constants {
        entries: vec![
            Constant {
                name: "Element".to_string(),
                value: ConstantValue::Dictionary(vec![
                    DictionaryEntry {
                        key: "FIRE".to_string(),
                        value: MemberValue::Int(1),
                    },
                    DictionaryEntry {
                        key: "ICE".to_string(),
                        value: MemberValue::Int(2),
                    },
                    DictionaryEntry {
                        key: "WIND".to_string(),
                        value: MemberValue::Int(4),
                    },
                ]),
            },
            Constant {
                name: "MAX_HP".to_string(),
                value: ConstantValue::Other("int".to_string()),
            },
            Constant {
                name: "Mixed".to_string(),
                value: ConstantValue::Dictionary(vec![
                    DictionaryEntry {
                        key: "A".to_string(),
                        value: MemberValue::Int(1),
                    },
                    DictionaryEntry {
                        key: "B".to_string(),
                        value: MemberValue::Other("String".to_string()),
                    },
                ]),
            },
            Constant {
                name: "Empty".to_string(),
                value: ConstantValue::Dictionary(vec![]),
            },
        ],
    }
}

#[test]
fn builds_a_flags_hint_in_declaration_order() {
    let members = vec![
        ("FIRE".to_string(), 1),
        ("ICE".to_string(), 2),
        ("WIND".to_string(), 4),
    ];

    assert_eq!(build_hint_text(&members), "FIRE:1,ICE:2,WIND:4");
}

#[test]
fn keeps_the_values_the_enum_declares() {
    let members = vec![("NONE".to_string(), 0), ("ALL".to_string(), 3)];

    assert_eq!(build_hint_text(&members), "NONE:0,ALL:3");
}

#[test]
fn flags_hint_writes_negative_and_extreme_values() {
    let members = vec![
        ("LOW".to_string(), i64::MIN),
        ("NEG".to_string(), -7),
        ("HIGH".to_string(), i64::MAX),
    ];
    assert_eq!(
        build_hint_text(&members),
        "LOW:-9223372036854775808,NEG:-7,HIGH:9223372036854775807"
    );
    assert_eq!(build_hint_text(&vec![]), "");
}

#[test]
fn reads_the_members_of_a_declared_enum() {
    let constants = element_constants();
    let members = get_members("Element", &constants).unwrap();
    assert_eq!(
        members,
        vec![
            ("FIRE".to_string(), 1),
            ("ICE".to_string(), 2),
            ("WIND".to_string(), 4)
        ]
    );
}

#[test]
fn refuses_what_is_not_an_enum_of_ints() {
    let constants = element_constants();
    assert_eq!(
        get_members("Missing", &constants).err().unwrap(),
        "'Missing' is not declared in the script or its base scripts"
    );
    assert_eq!(
        get_members("MAX_HP", &constants).err().unwrap(),
        "'MAX_HP' is int, not an enum"
    );
    assert_eq!(
        get_members("Mixed", &constants).err().unwrap(),
        "'Mixed.B' is String, not an int"
    );
    assert_eq!(
        get_members("Empty", &constants).err().unwrap(),
        "'Empty' has no members"
    );
}

#[test]
fn enum_flags_reads_an_enum_on_an_int_property() {
    let constants = element_constants();
    let context = ParseContext {
        variant_type: VariantType::Int,
        constants: &constants,
    };
    let flags = EnumFlags::parse("  Element ", &context).ok().unwrap();
    assert_eq!(flags.get_hint_text(), "FIRE:1,ICE:2,WIND:4");
}

#[test]
fn enum_flags_refuses_bad_arguments() {
    let constants = element_constants();
    let int_context = ParseContext {
        variant_type: VariantType::Int,
        constants: &constants,
    };
    let float_context = ParseContext {
        variant_type: VariantType::Float,
        constants: &constants,
    };
    assert_eq!(
        EnumFlags::parse("   ", &int_context).err().unwrap(),
        "expected an enum name"
    );
    assert_eq!(
        EnumFlags::parse("1st", &int_context).err().unwrap(),
        "'1st' is not an enum name"
    );
    assert_eq!(
        EnumFlags::parse("Element", &float_context).err().unwrap(),
        "can be used only on int properties"
    );
    assert_eq!(
        EnumFlags::parse("Empty", &int_context).err().unwrap(),
        "'Empty' has no members"
    );
}

#[test]
fn assignable_types_follow_the_property() {
    assert!(is_assignable(VariantType::Int, VariantType::Int));
    assert!(is_assignable(VariantType::Float, VariantType::Int));
    assert!(is_assignable(VariantType::Int, VariantType::Float));
    assert!(is_assignable(VariantType::StringName, VariantType::String));
    assert!(is_assignable(VariantType::String, VariantType::StringName));
    assert!(is_assignable(VariantType::Nil, VariantType::Object));
    assert!(!is_assignable(VariantType::String, VariantType::Int));
    assert!(!is_assignable(VariantType::Nil, VariantType::Int));
    assert!(!is_assignable(VariantType::Int, VariantType::Bool));
}

#[test]
fn dropdown_finds_the_first_option_it_cannot_hold() {
    let constants = Constants { entries: vec![] };
    let context = ParseContext {
        variant_type: VariantType::Int,
        constants: &constants,
    };
    let dropdown = Dropdown::parse(" [1, 2.5, \"x\"] ", &context, &accepts).ok().unwrap();
    assert_eq!(dropdown.options.expression.get_text(), "[1, 2.5, \"x\"]");
    assert_eq!(dropdown.variant_type, VariantType::Int);
    assert_eq!(
        dropdown.find_unassignable(&vec![
            VariantType::Int,
            VariantType::Float,
            VariantType::String,
            VariantType::Bool
        ]),
        Some(2)
    );
    assert_eq!(
        dropdown.find_unassignable(&vec![VariantType::Int, VariantType::Float]),
        None
    );
    assert_eq!(
        Dropdown::parse("  ", &context, &accepts).err().unwrap(),
        "expected an Array or a Dictionary expression"
    );
}

#[test]
fn min_max_slider_reads_two_bounds_on_a_vector() {
    let constants = Constants { entries: vec![] };
    let context = ParseContext {
        variant_type: VariantType::Vector2,
        constants: &constants,
    };
    let slider = MinMaxSlider::parse("0, max_level * 2", &context, &accepts).ok().unwrap();
    assert_eq!(slider.min_value.expression.get_text(), "0");
    assert_eq!(slider.max_value.expression.get_text(), "max_level * 2");

    assert_eq!(
        MinMaxSlider::parse("0", &context, &accepts).err().unwrap(),
        "expected a minimum and a maximum"
    );
    assert_eq!(
        MinMaxSlider::parse("0, ", &context, &accepts).err().unwrap(),
        "expected a numeric expression"
    );
    let int_context = ParseContext {
        variant_type: VariantType::Int,
        constants: &constants,
    };
    assert_eq!(
        MinMaxSlider::parse("0, 1", &int_context, &accepts).err().unwrap(),
        "can be used only on Vector2 and Vector2i properties"
    );
}

#[test]
fn numeric_bounds_need_a_number_property() {
    let constants = Constants { entries: vec![] };
    let float_context = ParseContext {
        variant_type: VariantType::Float,
        constants: &constants,
    };
    let string_context = ParseContext {
        variant_type: VariantType::String,
        constants: &constants,
    };
    let min = MinValue::parse(" 0.5 ", &float_context, &accepts).ok().unwrap();
    assert_eq!(min.min_value.expression.get_text(), "0.5");
    let max = MaxValue::parse("limit", &float_context, &accepts).ok().unwrap();
    assert_eq!(max.max_value.expression.get_text(), "limit");
    assert_eq!(
        MinValue::parse("1", &string_context, &accepts).err().unwrap(),
        "can be used only on int, float, Vector2/3/4 and Vector2i/3i/4i properties"
    );
    assert_eq!(
        NumberExpression::parse("   ", &float_context, &accepts).err().unwrap(),
        "expected a numeric expression"
    );
    assert_eq!(
        OptionsExpression::parse("  ", &float_context, &accepts).err().unwrap(),
        "expected an Array or a Dictionary expression"
    );
}

#[test]
fn require_names_the_property_in_its_message() {
    let constants = Constants { entries: vec![] };
    let context = ParseContext {
        variant_type: VariantType::Int,
        constants: &constants,
    };
    let require = Require::parse("hp > 0", &context, &accepts).ok().unwrap();
    assert_eq!(require.get_message("hp"), "hp is not valid: hp > 0");
    assert!(require.is_satisfied(true));
    assert!(!require.is_satisfied(false));
}

#[test]
fn attributes_are_read_by_their_group() {
    let constants = element_constants();
    let context = ParseContext {
        variant_type: VariantType::Int,
        constants: &constants,
    };
    let flags = NaughtyAttribute::parse("enum_flags", "Element", &context, &accepts)
        .ok()
        .unwrap();
    assert_eq!(flags.get_key(), "enum_flags");
    let bound = NaughtyAttribute::parse("min_value", "0", &context, &accepts).ok().unwrap();
    assert_eq!(bound.get_key(), "min_value");
    assert_eq!(
        NaughtyAttribute::parse("shwo_if", "a", &context, &accepts).err().unwrap(),
        "unknown attribute"
    );
    assert!(is_known_key("dropdown"));
    assert!(is_known_key("show_if"));
    assert!(!is_known_key("range"));
    assert!(DrawerAttribute::is_known_key("min_max_slider"));
    assert!(!DrawerAttribute::is_known_key("min_value"));
    assert!(ValidatorAttribute::is_known_key("require"));
}

#[test]
fn later_constants_replace_earlier_ones_in_place() {
    let mut constants = Constants::new();
    constants.set(Constant {
        name: "A".to_string(),
        value: ConstantValue::Other("int".to_string()),
    });
    constants.set(Constant {
        name: "B".to_string(),
        value: ConstantValue::Other("float".to_string()),
    });
    constants.set(Constant {
        name: "A".to_string(),
        value: ConstantValue::Dictionary(vec![DictionaryEntry {
            key: "X".to_string(),
            value: MemberValue::Int(1),
        }]),
    });
    assert_eq!(constants.entries.len(), 2);
    assert_eq!(constants.get("A"), Some(0));
    assert_eq!(constants.get("B"), Some(1));
    assert_eq!(constants.get("C"), None);
    assert!(matches!(constants.entries[0].value, ConstantValue::Dictionary(_)));
    assert_eq!(
        get_members("A", &constants).unwrap(),
        vec![("X".to_string(), 1)]
    );
}
