use cargo_generate::config::TomlValue;
use cargo_generate::interactive::{
    answer_items, check_provided_selections, check_provided_value, editor_retry_prompt,
    initial_choice, initial_selections, parse_bool_answer, parse_list, split_list,
    ProvidedValueError, LIST_SEP, LIST_SEP_PRETTY,
};
use cargo_generate::project_variables::{try_key_value_into_slot, Choice};

fn strings(v: &[&str]) -> Vec<String> {
    v.iter().map(|s| s.to_string()).collect()
}

fn slot(entries: Vec<(&str, TomlValue)>) -> cargo_generate::project_variables::TemplateSlots {
    try_key_value_into_slot(
        "v",
        &TomlValue::Table(entries.into_iter().map(|(k, v)| (k.to_string(), v)).collect()),
    )
    .unwrap()
}

#[test]
fn separators_are_comma_and_comma_space() {
    assert_eq!(LIST_SEP, ",");
    assert_eq!(LIST_SEP_PRETTY, ", ");
}

#[test]
fn parse_list_drops_empty_items() {
    assert_eq!(parse_list("a,,b,"), strings(&["a", "b"]));
    assert_eq!(parse_list(""), Vec::<String>::new());
    assert_eq!(parse_list(",,,"), Vec::<String>::new());
    assert_eq!(parse_list("one"), strings(&["one"]));
}

#[test]
fn split_list_keeps_empty_items() {
    assert_eq!(split_list("a,,b,"), strings(&["a", "", "b", ""]));
    assert_eq!(split_list(""), strings(&[""]));
}

#[test]
fn provided_selections_are_partitioned() {
    let choices = strings(&["a", "b", "c"]);
    assert_eq!(check_provided_selections("a,c", &choices), Ok(strings(&["a", "c"])));
    assert_eq!(check_provided_selections("", &choices), Ok(Vec::new()));
    assert_eq!(check_provided_selections("a,x,b,y", &choices), Err(strings(&["x", "y"])));
    assert_eq!(check_provided_selections(",,a,", &choices), Ok(strings(&["a"])));
}

#[test]
fn bool_answers_ignore_case() {
    assert_eq!(parse_bool_answer("TRUE"), Some(true));
    assert_eq!(parse_bool_answer("False"), Some(false));
    assert_eq!(parse_bool_answer("yes"), None);
    assert_eq!(parse_bool_answer("true "), None);
}

#[test]
fn provided_bool_is_normalised() {
    let s = slot(vec![
        ("type", TomlValue::String("bool".into())),
        ("prompt", TomlValue::String("?".into())),
    ]);
    assert_eq!(check_provided_value(&s, "TrUe".into()), Ok("true".to_string()));
    assert_eq!(check_provided_value(&s, "nope".into()), Err(ProvidedValueError::NotABool));
    assert_eq!(
        ProvidedValueError::NotABool.message(),
        "provided string was not `true` or `false`"
    );
}

#[test]
fn provided_text_must_match_regex() {
    let s = slot(vec![
        ("prompt", TomlValue::String("?".into())),
        ("regex", TomlValue::String("^[a-z]+$".into())),
    ]);
    assert_eq!(check_provided_value(&s, "abc".into()), Ok("abc".to_string()));
    let err = check_provided_value(&s, "ABC".into()).unwrap_err();
    assert_eq!(
        err,
        ProvidedValueError::Invalid { var_name: "v".into(), value: "ABC".into(), several: false }
    );
    assert_eq!(err.message(), "Sorry, \"ABC\" is not a valid value for v");
}

#[test]
fn provided_choice_must_be_a_value() {
    let s = slot(vec![
        ("prompt", TomlValue::String("?".into())),
        (
            "choices",
            TomlValue::Array(vec![TomlValue::String("x".into()), TomlValue::String("y".into())]),
        ),
    ]);
    assert_eq!(check_provided_value(&s, "y".into()), Ok("y".to_string()));
    assert!(check_provided_value(&s, "z".into()).is_err());
}

#[test]
fn provided_list_reports_every_bad_item() {
    let s = slot(vec![
        ("type", TomlValue::String("array".into())),
        ("prompt", TomlValue::String("?".into())),
        (
            "choices",
            TomlValue::Array(vec![TomlValue::String("x".into()), TomlValue::String("y".into())]),
        ),
    ]);
    assert_eq!(check_provided_value(&s, "y,,x".into()), Ok("y,x".to_string()));
    let err = check_provided_value(&s, "a,x,b".into()).unwrap_err();
    assert_eq!(
        err,
        ProvidedValueError::Invalid { var_name: "v".into(), value: "a,b".into(), several: true }
    );
    assert_eq!(err.message(), "Sorry, \"a,b\" are not valid values for v");
}

#[test]
fn initial_choice_prefers_a_valid_default() {
    let cs = vec![Choice::new("a".to_string()), Choice::new("b".to_string())];
    assert_eq!(initial_choice(&Some("b".into()), &cs), "b");
    assert_eq!(initial_choice(&Some("z".into()), &cs), "a");
    assert_eq!(initial_choice(&None, &cs), "a");
}

#[test]
fn initial_selections_keep_defaults_among_choices() {
    let cs = vec![Choice::new("a".to_string()), Choice::new("b".to_string())];
    assert_eq!(initial_selections(&strings(&["b", "z", "a"]), &cs), strings(&["b", "a"]));
}

#[test]
fn list_answer_round_trips() {
    let items = strings(&["a", "bb", "c"]);
    let joined = items.join(LIST_SEP);
    assert_eq!(answer_items(&joined), items);
    assert_eq!(answer_items(""), Vec::<String>::new());
}

#[test]
fn editor_retry_keeps_question_up_to_colon() {
    assert_eq!(
        editor_retry_prompt("Describe: it [default: x]", "bad", "desc"),
        "Describe: \"bad\" is not a valid value for `desc`"
    );
    assert_eq!(
        editor_retry_prompt("No colon", "bad", "desc"),
        "No colon: \"bad\" is not a valid value for `desc`"
    );
}
