use cargo_generate::config::TomlValue;
use cargo_generate::pattern::ValueRegex;
use cargo_generate::config::TemplateSlotsTable;
use cargo_generate::project_variables::{
    extract_choices, extract_choices_given, extract_default, extract_default_given,
    extract_prompt, extract_regex, extract_type, try_into_template_slots,
    try_key_value_into_slot, Choice, ConversionError, Prompt, StringKind, SupportedVarType,
    SupportedVarValue, VarInfo,
};

#[test]
fn no_choices_boolean() {
    let result = extract_choices("foo", SupportedVarType::Bool, None, None);

    assert_eq!(result, Ok(None));
}

#[test]
fn no_choices_editor() {
    let result = extract_choices("foo", SupportedVarType::Editor, None, None);

    assert_eq!(result, Ok(None));
}

#[test]
fn no_choices_text() {
    let result = extract_choices("foo", SupportedVarType::Text, None, None);

    assert_eq!(result, Ok(None));
}

#[test]
fn boolean_cant_have_choices() {
    let result = extract_choices(
        "foo",
        SupportedVarType::Bool,
        None,
        Some(&TomlValue::Array(vec![
            TomlValue::Boolean(true),
            TomlValue::Boolean(false),
        ])),
    );

    assert_eq!(
        result,
        Err(ConversionError::UnsupportedChoices {
            var_type: "Bool".into()
        })
    );
}

#[test]
fn editor_cant_have_regex() {
    let result = extract_regex(
        "foo",
        SupportedVarType::Editor,
        Some(&TomlValue::Array(vec![
            TomlValue::Boolean(true),
            TomlValue::Boolean(false),
        ])),
    );

    assert_eq!(
        result.err(),
        Some(ConversionError::WrongTypeParameter {
            var_name: "foo".to_string(),
            parameter: "regex".to_string(),
            correct_type: "String".to_string()
        })
    );
}

#[test]
fn cant_have_default_wrong_type() {
    let result = extract_default(
        "foo",
        SupportedVarType::Array,
        None,
        Some(&TomlValue::Array(vec![
            TomlValue::Boolean(true),
            TomlValue::Boolean(false),
        ])),
        None,
    );

    assert_eq!(
        result.err(),
        Some(ConversionError::WrongTypeParameter {
            var_name: "foo".into(),
            parameter: "default".into(),
            correct_type: "array".into()
        })
    );
}

#[test]
fn text_cant_have_choices() {
    let result = extract_choices(
        "foo",
        SupportedVarType::Text,
        None,
        Some(&TomlValue::Array(vec![
            TomlValue::Boolean(true),
            TomlValue::Boolean(false),
        ])),
    );

    assert_eq!(
        result,
        Err(ConversionError::UnsupportedChoices {
            var_type: "Text".into()
        })
    );
}

#[test]
fn editor_cant_have_choices() {
    let result = extract_choices(
        "foo",
        SupportedVarType::Editor,
        None,
        Some(&TomlValue::Array(vec![
            TomlValue::Boolean(true),
            TomlValue::Boolean(false),
        ])),
    );
    assert_eq!(
        result,
        Err(ConversionError::UnsupportedChoices {
            var_type: "Editor".into()
        })
    );
}

#[test]
fn choices_cant_be_an_empty_array() {
    let result = extract_choices(
        "foo",
        SupportedVarType::String,
        None,
        Some(&TomlValue::Array(Vec::new())),
    );

    assert_eq!(
        result,
        Err(ConversionError::EmptyChoices {
            var_name: "foo".into()
        })
    );
}
#[test]
fn multi_choices_can_be_an_empty_array() {
    let result = extract_choices(
        "foo",
        SupportedVarType::Array,
        None,
        Some(&TomlValue::Array(Vec::new())),
    );

    assert_eq!(result, Ok(Some(Vec::new())));
}

#[test]
fn choices_array_cant_have_anything_but_strings_or_tables() {
    let result = extract_choices(
        "foo",
        SupportedVarType::String,
        None,
        Some(&TomlValue::Array(vec![
            TomlValue::String("bar".into()),
            TomlValue::Boolean(false),
        ])),
    );

    assert_eq!(
        result,
        Err(ConversionError::InvalidChoiceEntry {
            var_name: "foo".into(),
        })
    );
}

#[test]
fn choices_is_array_string_no_regex_is_fine() {
    let result = extract_choices(
        "foo",
        SupportedVarType::String,
        None,
        Some(&TomlValue::Array(vec![
            TomlValue::String("bar".into()),
            TomlValue::String("zoo".into()),
        ])),
    );

    assert_eq!(
        result,
        Ok(Some(vec![Choice::new("bar".to_string()), Choice::new("zoo".to_string())]))
    );
}

#[test]
fn choices_is_array_string_that_doesnt_match_regex_is_error() {
    let valid_ident = ValueRegex::new(r"^([a-zA-Z][a-zA-Z0-9_-]+)$").unwrap();

    let result = extract_choices(
        "foo",
        SupportedVarType::String,
        Some(&valid_ident),
        Some(&TomlValue::Array(vec![
            TomlValue::String("0bar".into()),
            TomlValue::String("zoo".into()),
        ])),
    );

    assert_eq!(
        result,
        Err(ConversionError::RegexDoesntMatchField {
            var_name: "foo".into(),
            field: "choices".into()
        })
    );
}

#[test]
fn choices_is_array_string_that_all_match_regex_is_good() {
    let valid_ident = ValueRegex::new(r"^([a-zA-Z][a-zA-Z0-9_-]+)$").unwrap();

    let result = extract_choices(
        "foo",
        SupportedVarType::String,
        Some(&valid_ident),
        Some(&TomlValue::Array(vec![
            TomlValue::String("bar0".into()),
            TomlValue::String("zoo".into()),
        ])),
    );

    assert_eq!(
        result,
        Ok(Some(vec![Choice::new("bar0".to_string()), Choice::new("zoo".to_string())]))
    );
}

fn choice_table(value: Option<&str>, label: Option<&str>) -> TomlValue {
    let mut map: Vec<(String, TomlValue)> = Vec::new();
    if let Some(value) = value {
        map.push(("value".to_string(), TomlValue::String(value.into())));
    }
    if let Some(label) = label {
        map.push(("label".to_string(), TomlValue::String(label.into())));
    }
    TomlValue::Table(map)
}

#[test]
fn choices_accept_value_label_tables_mixed_with_plain_strings() {
    let result = extract_choices(
        "foo",
        SupportedVarType::String,
        None,
        Some(&TomlValue::Array(vec![
            choice_table(Some("recommended"), Some("1.3.7 (recommended)")),
            TomlValue::String("experimental".into()),
        ])),
    );

    assert_eq!(
        result,
        Ok(Some(vec![
            Choice::with_label("recommended".to_string(), "1.3.7 (recommended)".to_string()),
            Choice::new("experimental".to_string()),
        ]))
    );
}

#[test]
fn choice_table_without_label_defaults_label_to_value() {
    let result = extract_choices(
        "foo",
        SupportedVarType::String,
        None,
        Some(&TomlValue::Array(vec![choice_table(Some("bar"), None)])),
    );

    assert_eq!(result, Ok(Some(vec![Choice::new("bar".to_string())])));
}

#[test]
fn choice_table_without_value_is_error() {
    let result = extract_choices(
        "foo",
        SupportedVarType::String,
        None,
        Some(&TomlValue::Array(vec![choice_table(
            None,
            Some("just a label"),
        )])),
    );

    assert_eq!(
        result,
        Err(ConversionError::InvalidChoiceEntry {
            var_name: "foo".into(),
        })
    );
}

#[test]
fn choices_regex_is_checked_against_value_not_label() {
    let valid_ident = ValueRegex::new(r"^([a-zA-Z][a-zA-Z0-9_-]+)$").unwrap();

    // The value is a valid identifier while the label is not; only the
    // value has to satisfy the regex.
    let result = extract_choices(
        "foo",
        SupportedVarType::String,
        Some(&valid_ident),
        Some(&TomlValue::Array(vec![choice_table(
            Some("recommended"),
            Some("1.3.7 (recommended)"),
        )])),
    );

    assert_eq!(
        result,
        Ok(Some(vec![Choice::with_label("recommended".to_string(), "1.3.7 (recommended)".to_string())]))
    );
}

#[test]
fn multi_choices_accept_value_label_tables() {
    let result = extract_choices(
        "foo",
        SupportedVarType::Array,
        None,
        Some(&TomlValue::Array(vec![
            choice_table(Some("serde"), Some("Serde (serialization)")),
            TomlValue::String("logging".into()),
        ])),
    );

    assert_eq!(
        result,
        Ok(Some(vec![
            Choice::with_label("serde".to_string(), "Serde (serialization)".to_string()),
            Choice::new("logging".to_string()),
        ]))
    );
}

#[test]
fn default_is_matched_against_choice_value_not_label() {
    let choices = vec![Choice::with_label("recommended".to_string(), "1.3.7 (recommended)".to_string())];

    let result = extract_default(
        "foo",
        SupportedVarType::String,
        None,
        Some(&TomlValue::String("recommended".to_string())),
        Some(&choices),
    );

    assert_eq!(
        result,
        Ok(Some(SupportedVarValue::String("recommended".into())))
    );
}

#[test]
fn choices_is_not_array_string_is_error() {
    let result = extract_choices(
        "foo",
        SupportedVarType::String,
        None,
        Some(&TomlValue::String("bar".into())),
    );

    assert_eq!(
        result,
        Err(ConversionError::WrongTypeParameter {
            var_name: "foo".into(),
            parameter: "choices".into(),
            correct_type: "String Array".into()
        })
    );
}

#[test]
fn multi_choices_table_without_value_is_error() {
    let result = extract_choices(
        "foo",
        SupportedVarType::Array,
        None,
        Some(&TomlValue::Array(vec![
            TomlValue::String("bar0".into()),
            TomlValue::Table(Vec::new()),
        ])),
    );

    assert_eq!(
        result,
        Err(ConversionError::InvalidChoiceEntry {
            var_name: "foo".into(),
        })
    );
}

#[test]
fn multi_choices_wrong_default_type() {
    let result = extract_default(
        "foo",
        SupportedVarType::Array,
        None,
        Some(&TomlValue::Array(vec![TomlValue::String(
            "true".into(),
        )])),
        Some(&vec![Choice::new("bar0".to_string())]),
    );

    assert_eq!(
        result,
        Err(ConversionError::InvalidDefault {
            var_name: "foo".into(),
            default: "true".to_string(),
            choices: vec!["bar0".to_string()]
        })
    );
}

#[test]
fn no_choices_for_type_string() {
    let result = extract_choices("foo", SupportedVarType::String, None, None);

    assert_eq!(result, Ok(None));
}

#[test]
fn empty_default_is_fine() {
    let result = extract_default("foo", SupportedVarType::String, None, None, None);

    assert_eq!(result, Ok(None));
}

#[test]
fn default_for_boolean_is_fine() {
    let result = extract_default(
        "foo",
        SupportedVarType::Bool,
        None,
        Some(&TomlValue::Boolean(true)),
        None,
    );

    assert_eq!(result, Ok(Some(SupportedVarValue::Bool(true))))
}

#[test]
fn default_for_string_with_no_choices_and_no_regex() {
    let result = extract_default(
        "foo",
        SupportedVarType::String,
        None,
        Some(&TomlValue::String("bar".to_string())),
        None,
    );

    assert_eq!(
        result,
        Ok(Some(SupportedVarValue::String("bar".to_string())))
    )
}

#[test]
fn default_for_string_with_no_choices_and_matching_regex() {
    let valid_ident = ValueRegex::new(r"^([a-zA-Z][a-zA-Z0-9_-]+)$").unwrap();

    let result = extract_default(
        "foo",
        SupportedVarType::String,
        Some(&valid_ident),
        Some(&TomlValue::String("bar".to_string())),
        None,
    );

    assert_eq!(
        result,
        Ok(Some(SupportedVarValue::String("bar".to_string())))
    )
}

#[test]
fn default_for_string_with_no_choices_and_regex_doesnt_match() {
    let valid_ident = ValueRegex::new(r"^([a-zA-Z][a-zA-Z0-9_-]+)$").unwrap();

    let result = extract_default(
        "foo",
        SupportedVarType::String,
        Some(&valid_ident),
        Some(&TomlValue::String("0bar".to_string())),
        None,
    );

    assert_eq!(
        result,
        Err(ConversionError::RegexDoesntMatchField {
            var_name: "foo".into(),
            field: "default".into()
        })
    )
}

#[test]
fn default_for_string_isnt_on_choices() {
    let result = extract_default(
        "foo",
        SupportedVarType::String,
        None,
        Some(&TomlValue::String("bar".to_string())),
        Some(&vec![Choice::new("zoo".to_string()), Choice::new("far".to_string())]),
    );

    assert_eq!(
        result,
        Err(ConversionError::InvalidDefault {
            var_name: "foo".into(),
            default: "bar".into(),
            choices: vec!["zoo".to_string(), "far".to_string()]
        })
    )
}

#[test]
fn default_for_string_is_on_choices() {
    let result = extract_default(
        "foo",
        SupportedVarType::String,
        None,
        Some(&TomlValue::String("bar".to_string())),
        Some(&vec![Choice::new("zoo".to_string()), Choice::new("bar".to_string())]),
    );

    assert_eq!(result, Ok(Some(SupportedVarValue::String("bar".into()))))
}

#[test]
fn default_for_string_is_on_choices_and_matches_regex() {
    let valid_ident = ValueRegex::new(r"^([a-zA-Z][a-zA-Z0-9_-]+)$").unwrap();

    let result = extract_default(
        "foo",
        SupportedVarType::String,
        Some(&valid_ident),
        Some(&TomlValue::String("bar".to_string())),
        Some(&vec![Choice::new("zoo".to_string()), Choice::new("bar".to_string())]),
    );

    assert_eq!(result, Ok(Some(SupportedVarValue::String("bar".into()))))
}

#[test]
fn default_for_string_only_accepts_strings() {
    let result = extract_default(
        "foo",
        SupportedVarType::String,
        None,
        Some(&TomlValue::Integer(0)),
        None,
    );

    assert_eq!(
        result,
        Err(ConversionError::WrongTypeParameter {
            var_name: "foo".into(),
            parameter: "default".into(),
            correct_type: "string".into()
        })
    )
}

#[test]
fn default_for_bool_only_accepts_bool() {
    let result = extract_default(
        "foo",
        SupportedVarType::Bool,
        None,
        Some(&TomlValue::Integer(0)),
        None,
    );

    assert_eq!(
        result,
        Err(ConversionError::WrongTypeParameter {
            var_name: "foo".into(),
            parameter: "default".into(),
            correct_type: "bool".into()
        })
    )
}

#[test]
fn prompt_cant_be_empty() {
    let result = extract_prompt("foo", None);

    assert_eq!(
        result,
        Err(ConversionError::MissingPrompt {
            var_name: "foo".into(),
        })
    )
}

#[test]
fn prompt_must_be_string() {
    let result = extract_prompt("foo", Some(&TomlValue::Integer(0)));

    assert_eq!(
        result,
        Err(ConversionError::WrongTypeParameter {
            var_name: "foo".into(),
            parameter: "prompt".into(),
            correct_type: "String".into()
        })
    )
}

#[test]
fn prompt_as_string_is_ok() {
    let result = extract_prompt("foo", Some(&TomlValue::String("hello world".into())));

    assert_eq!(result, Ok("hello world".into()))
}

#[test]
fn empty_type_is_string() {
    let result = extract_type("foo", None);

    assert_eq!(result, Ok(SupportedVarType::String));
}

#[test]
fn type_must_be_string_type() {
    let result = extract_type("foo", Some(&TomlValue::Integer(0)));

    assert_eq!(
        result,
        Err(ConversionError::WrongTypeParameter {
            var_name: "foo".into(),
            parameter: "type".into(),
            correct_type: "String".into()
        })
    );
}

#[test]
fn type_must_either_be_string_or_bool() {
    let result_bool = extract_type("foo", Some(&TomlValue::String("bool".into())));
    let result_string = extract_type("foo", Some(&TomlValue::String("string".into())));
    let result_err = extract_type("foo", Some(&TomlValue::String("bar".into())));

    assert_eq!(result_bool, Ok(SupportedVarType::Bool));
    assert_eq!(result_string, Ok(SupportedVarType::String));
    assert_eq!(
        result_err,
        Err(ConversionError::InvalidVariableType {
            var_name: "foo".into(),
            value: "bar".into()
        })
    )
}

#[test]
fn bools_cant_have_regex() {
    let result = extract_regex(
        "foo",
        SupportedVarType::Bool,
        Some(&TomlValue::String("".into())),
    );

    assert!(result.is_err())
}

#[test]
fn no_regex_is_ok() {
    let result_bool = extract_regex("foo", SupportedVarType::Bool, None);
    let result_string = extract_regex("foo", SupportedVarType::String, None);

    assert!(result_bool.is_ok());
    assert!(result_string.is_ok())
}

#[test]
fn strings_can_have_regex() {
    let result = extract_regex(
        "foo",
        SupportedVarType::String,
        Some(&TomlValue::String("^([a-zA-Z][a-zA-Z0-9_-]+)$".into())),
    );

    assert!(result.is_ok())
}

#[test]
fn invalid_regex_is_err() {
    let result = extract_regex(
        "foo",
        SupportedVarType::String,
        Some(&TomlValue::String("*".into())),
    );

    assert!(result.is_err())
}

#[test]
fn block_invalid_key_names() {
    let result =
        try_key_value_into_slot("project-name", &TomlValue::Table(Vec::new()));

    assert!(result.is_err());
    let result = result.err().unwrap();
    assert_eq!(
        result,
        ConversionError::InvalidPlaceholderName {
            var_name: "project-name".into()
        }
    );

    let result = try_key_value_into_slot("crate_name", &TomlValue::Table(Vec::new()));

    assert!(result.is_err());
    let result = result.err().unwrap();
    assert_eq!(
        result,
        ConversionError::InvalidPlaceholderName {
            var_name: "crate_name".into()
        }
    );
}

#[test]
fn only_tables_as_placeholder_values() {
    let result = try_key_value_into_slot("foo", &TomlValue::Integer(Default::default()));

    assert!(result.is_err());
    let result = result.err().unwrap();
    assert_eq!(
        result,
        ConversionError::InvalidPlaceholderFormat {
            var_name: "foo".into()
        }
    );
}


fn table(entries: Vec<(&str, TomlValue)>) -> TomlValue {
    TomlValue::Table(
        entries
            .into_iter()
            .map(|(k, v)| (k.to_string(), v))
            .collect(),
    )
}

#[test]
fn full_placeholder_becomes_a_choice_slot() {
    let def = table(vec![
        ("type", TomlValue::String("string".into())),
        ("prompt", TomlValue::String("Pick one".into())),
        (
            "choices",
            TomlValue::Array(vec![
                TomlValue::String("a".into()),
                TomlValue::String("b".into()),
            ]),
        ),
        ("default", TomlValue::String("b".into())),
    ]);
    let slot = try_key_value_into_slot("letter", &def).unwrap();
    assert_eq!(slot.var_name, "letter");
    assert_eq!(slot.prompt.raw, "Pick one");
    assert_eq!(slot.prompt.with_default, "Pick one");
    match slot.var_info {
        VarInfo::String { entry } => {
            assert_eq!(entry.default, Some("b".to_string()));
            assert!(entry.regex.is_none());
            match entry.kind {
                StringKind::Choices(c) => assert_eq!(
                    c,
                    vec![Choice::new("a".to_string()), Choice::new("b".to_string())]
                ),
                other => panic!("unexpected kind {:?}", other),
            }
        }
        other => panic!("unexpected info {:?}", other),
    }
}

#[test]
fn bool_placeholder_keeps_its_default() {
    let def = table(vec![
        ("type", TomlValue::String("bool".into())),
        ("prompt", TomlValue::String("Sure?".into())),
        ("default", TomlValue::Boolean(true)),
    ]);
    match try_key_value_into_slot("sure", &def).unwrap().var_info {
        VarInfo::Bool { default } => assert_eq!(default, Some(true)),
        other => panic!("unexpected info {:?}", other),
    }
}

#[test]
fn array_placeholder_without_choices_has_none() {
    let def = table(vec![
        ("type", TomlValue::String("array".into())),
        ("prompt", TomlValue::String("Pick".into())),
    ]);
    match try_key_value_into_slot("many", &def).unwrap().var_info {
        VarInfo::Array { entry } => {
            assert!(entry.choices.is_empty());
            assert_eq!(entry.default, None);
        }
        other => panic!("unexpected info {:?}", other),
    }
}

#[test]
fn placeholder_entries_are_checked_in_order() {
    let def = table(vec![
        ("type", TomlValue::Integer(1)),
        ("prompt", TomlValue::Integer(1)),
    ]);
    assert_eq!(
        try_key_value_into_slot("x", &def).err().unwrap(),
        ConversionError::WrongTypeParameter {
            var_name: "x".into(),
            parameter: "type".into(),
            correct_type: "String".into()
        }
    );
    let def = table(vec![("type", TomlValue::String("text".into()))]);
    assert_eq!(
        try_key_value_into_slot("x", &def).err().unwrap(),
        ConversionError::MissingPrompt { var_name: "x".into() }
    );
}

#[test]
fn table_of_placeholders_stops_at_first_refusal() {
    let ok = table(vec![("prompt", TomlValue::String("q".into()))]);
    let slots = try_into_template_slots(&TemplateSlotsTable(vec![
        ("a".to_string(), ok),
        ("authors".to_string(), TomlValue::Integer(0)),
        ("c".to_string(), TomlValue::Integer(0)),
    ]));
    assert_eq!(
        slots.err().unwrap(),
        ConversionError::InvalidPlaceholderName { var_name: "authors".into() }
    );
    let ok = table(vec![("prompt", TomlValue::String("q".into()))]);
    let slots = try_into_template_slots(&TemplateSlotsTable(vec![("a".to_string(), ok)])).unwrap();
    assert_eq!(slots.len(), 1);
    assert_eq!(slots[0].var_name, "a");
}

#[test]
fn invalid_regex_reports_the_compiler_error() {
    let err = extract_regex(
        "foo",
        SupportedVarType::String,
        Some(&TomlValue::String("*".into())),
    )
    .err()
    .unwrap();
    match &err {
        ConversionError::InvalidRegex { var_name, regex, error } => {
            assert_eq!(var_name, "foo");
            assert_eq!(regex, "*");
            assert!(!error.is_empty());
        }
        other => panic!("unexpected error {:?}", other),
    }
    assert!(err.message().starts_with("regex of `foo` is not a valid regex. "));
}

#[test]
fn array_cannot_take_a_regex_string() {
    assert_eq!(
        extract_regex("foo", SupportedVarType::Array, Some(&TomlValue::String("a".into()))).err(),
        Some(ConversionError::WrongTypeParameter {
            var_name: "foo".into(),
            parameter: "regex".into(),
            correct_type: "String".into()
        })
    );
}

#[test]
fn compiled_regex_keeps_its_pattern() {
    let re = extract_regex("foo", SupportedVarType::Text, Some(&TomlValue::String("^a+$".into())))
        .unwrap()
        .unwrap();
    assert_eq!(re.as_str(), "^a+$");
    assert!(re.is_match("aaa"));
    assert!(!re.is_match("ab"));
}

#[test]
fn multi_default_lists_are_joined_in_the_refusal() {
    let result = extract_default(
        "foo",
        SupportedVarType::Array,
        None,
        Some(&TomlValue::Array(vec![
            TomlValue::String("a".into()),
            TomlValue::Integer(3),
        ])),
        Some(&vec![Choice::new("a".to_string())]),
    );
    assert_eq!(
        result,
        Err(ConversionError::InvalidDefault {
            var_name: "foo".into(),
            default: "a,".to_string(),
            choices: vec!["a".to_string()]
        })
    );
    let ok = extract_default(
        "foo",
        SupportedVarType::Array,
        None,
        Some(&TomlValue::Array(vec![TomlValue::String("a".into())])),
        Some(&vec![Choice::new("a".to_string())]),
    );
    assert_eq!(ok, Ok(Some(SupportedVarValue::Array(vec!["a".to_string()]))));
}

#[test]
fn refusal_messages_read_as_documented() {
    assert_eq!(
        ConversionError::MissingPrompt { var_name: "x".into() }.message(),
        "missing prompt question for `x`"
    );
    assert_eq!(
        ConversionError::UnsupportedChoices { var_type: "Bool".into() }.message(),
        "Bool type does not support `choices` field"
    );
    assert_eq!(
        ConversionError::InvalidDefault {
            var_name: "v".into(),
            default: "d".into(),
            choices: vec!["a".into(), "b".into()]
        }
        .message(),
        "default is `d`, but is not a valid value in choices array `[\"a\", \"b\"]` for `v`"
    );
}

#[test]
fn given_verdicts_decide_regex_refusals() {
    assert_eq!(
        extract_default_given(
            "foo",
            SupportedVarType::String,
            false,
            Some(&TomlValue::String("x".into())),
            None
        ),
        Err(ConversionError::RegexDoesntMatchField {
            var_name: "foo".into(),
            field: "default".into()
        })
    );
    assert_eq!(
        extract_choices_given(
            "foo",
            SupportedVarType::String,
            false,
            Some(&TomlValue::Array(vec![TomlValue::String("x".into())]))
        ),
        Err(ConversionError::RegexDoesntMatchField {
            var_name: "foo".into(),
            field: "choices".into()
        })
    );
    assert_eq!(
        extract_choices_given(
            "foo",
            SupportedVarType::Array,
            false,
            Some(&TomlValue::Array(vec![TomlValue::String("x".into())]))
        ),
        Ok(Some(vec![Choice::new("x".to_string())]))
    );
}

#[test]
fn prompt_shows_its_default() {
    let p = Prompt::new("Name".to_string(), Some("x".to_string()));
    assert_eq!(p.raw, "Name");
    assert_eq!(p.with_default, "Name [default: x]");
}
