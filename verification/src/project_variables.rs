//! Placeholders: how a template declares the values it asks for, checked
//! and turned into the questions to ask.
use vstd::prelude::*;
use crate::config::{TemplateSlotsTable, TomlValue};
use crate::pattern::{regex_compile_error, regex_matches, ValueRegex};
use crate::interactive::LIST_SEP;
use crate::text::{debug_str, debug_text, join_strings, join_with, owned, str_eq, texts};

verus! {

/// The kinds of value a placeholder can hold.
#[derive(Debug, Clone, Copy, PartialEq, Eq, Structural)]
pub enum SupportedVarType {
    Bool,
    String,
    Editor,
    Text,
    Array,
}

/// A default value, of one of the kinds a placeholder can hold.
#[derive(Debug, Clone, PartialEq)]
pub enum SupportedVarValue {
    Bool(bool),
    String(String),
    Array(Vec<String>),
}

/// A default value as text.
pub enum SupportedValueView {
    Bool(bool),
    String(Seq<char>),
    Array(Seq<Seq<char>>),
}


impl View for SupportedVarValue {
    type V = SupportedValueView;

    open spec fn view(&self) -> SupportedValueView {
        match self {
            SupportedVarValue::Bool(b) => SupportedValueView::Bool(*b),
            SupportedVarValue::String(s) => SupportedValueView::String(s@),
            SupportedVarValue::Array(v) => SupportedValueView::Array(texts(v@)),
        }
    }
}

/// A single selectable entry of a `choices` placeholder: the value handed
/// to the template, and the label shown to the user.
#[derive(Debug, Clone, PartialEq)]
pub struct Choice {
    pub value: String,
    pub label: String,
}

/// A choice as text.
pub struct ChoiceView {
    pub value: Seq<char>,
    pub label: Seq<char>,
}

impl View for Choice {
    type V = ChoiceView;

    open spec fn view(&self) -> ChoiceView {
        ChoiceView { value: self.value@, label: self.label@ }
    }
}

pub open spec fn choices_view(v: Seq<Choice>) -> Seq<ChoiceView> {
    v.map_values(|c: Choice| c@)
}

impl Choice {
    /// A choice whose label is its value.
    pub fn new(value: String) -> (r: Choice)
        ensures
            r.value == value,
            r.label@ == value@,
    {
        let label = value.clone();
        Choice { value, label }
    }

    /// A choice with a label of its own.
    pub fn with_label(value: String, label: String) -> (r: Choice)
        ensures
            r.value == value,
            r.label == label,
    {
        Choice { value, label }
    }
}

/// The values of `choices`, without their labels.
pub open spec fn values_of(choices: Seq<ChoiceView>) -> Seq<Seq<char>> {
    choices.map_values(|c: ChoiceView| c.value)
}

/// The values of `choices`, in order.
pub fn choice_values(choices: &Vec<Choice>) -> (r: Vec<String>)
    ensures
        texts(r@) == values_of(choices_view(choices@)),
{
    let mut r: Vec<String> = Vec::new();
    let mut i: usize = 0;
    while i < choices.len()
        invariant
            i <= choices.len(),
            r.len() == i,
            forall|j: int| 0 <= j < i ==> #[trigger] r@[j]@ == choices@[j].value@,
        decreases choices.len() - i,
    {
        r.push(choices[i].value.clone());
        i = i + 1;
    }
    assert(texts(r@) =~= values_of(choices_view(choices@)));
    r
}

/// Why a placeholder definition was refused.
#[derive(Debug, Clone, PartialEq)]
pub enum ConversionError {
    WrongTypeParameter { var_name: String, parameter: String, correct_type: String },
    InvalidPlaceholderFormat { var_name: String },
    MissingPrompt { var_name: String },
    EmptyChoices { var_name: String },
    InvalidChoiceEntry { var_name: String },
    InvalidDefault { var_name: String, default: String, choices: Vec<String> },
    InvalidVariableType { var_name: String, value: String },
    UnsupportedChoices { var_type: String },
    RegexOnBool { var_name: String },
    MissingDefaultValueForPlaceholderVariable { var_name: String },
    RegexDoesntMatchField { var_name: String, field: String },
    InvalidRegex { var_name: String, regex: String, error: String },
    InvalidPlaceholderName { var_name: String },
}

/// A refusal as text.
pub enum ConversionErrorView {
    WrongTypeParameter { var_name: Seq<char>, parameter: Seq<char>, correct_type: Seq<char> },
    InvalidPlaceholderFormat { var_name: Seq<char> },
    MissingPrompt { var_name: Seq<char> },
    EmptyChoices { var_name: Seq<char> },
    InvalidChoiceEntry { var_name: Seq<char> },
    InvalidDefault { var_name: Seq<char>, default: Seq<char>, choices: Seq<Seq<char>> },
    InvalidVariableType { var_name: Seq<char>, value: Seq<char> },
    UnsupportedChoices { var_type: Seq<char> },
    RegexOnBool { var_name: Seq<char> },
    MissingDefaultValueForPlaceholderVariable { var_name: Seq<char> },
    RegexDoesntMatchField { var_name: Seq<char>, field: Seq<char> },
    InvalidRegex { var_name: Seq<char>, regex: Seq<char>, error: Seq<char> },
    InvalidPlaceholderName { var_name: Seq<char> },
}

impl View for ConversionError {
    type V = ConversionErrorView;

    open spec fn view(&self) -> ConversionErrorView {
        match self {
            ConversionError::WrongTypeParameter { var_name, parameter, correct_type } =>
                ConversionErrorView::WrongTypeParameter {
                var_name: var_name@,
                parameter: parameter@,
                correct_type: correct_type@,
            },
            ConversionError::InvalidPlaceholderFormat { var_name } =>
                ConversionErrorView::InvalidPlaceholderFormat { var_name: var_name@ },
            ConversionError::MissingPrompt { var_name } => ConversionErrorView::MissingPrompt {
                var_name: var_name@,
            },
            ConversionError::EmptyChoices { var_name } => ConversionErrorView::EmptyChoices {
                var_name: var_name@,
            },
            ConversionError::InvalidChoiceEntry { var_name } =>
                ConversionErrorView::InvalidChoiceEntry { var_name: var_name@ },
            ConversionError::InvalidDefault { var_name, default, choices } =>
                ConversionErrorView::InvalidDefault {
                var_name: var_name@,
                default: default@,
                choices: texts(choices@),
            },
            ConversionError::InvalidVariableType { var_name, value } =>
                ConversionErrorView::InvalidVariableType { var_name: var_name@, value: value@ },
            ConversionError::UnsupportedChoices { var_type } =>
                ConversionErrorView::UnsupportedChoices { var_type: var_type@ },
            ConversionError::RegexOnBool { var_name } => ConversionErrorView::RegexOnBool {
                var_name: var_name@,
            },
            ConversionError::MissingDefaultValueForPlaceholderVariable { var_name } =>
                ConversionErrorView::MissingDefaultValueForPlaceholderVariable {
                var_name: var_name@,
            },
            ConversionError::RegexDoesntMatchField { var_name, field } =>
                ConversionErrorView::RegexDoesntMatchField { var_name: var_name@, field: field@ },
            ConversionError::InvalidRegex { var_name, regex, error } =>
                ConversionErrorView::InvalidRegex {
                var_name: var_name@,
                regex: regex@,
                error: error@,
            },
            ConversionError::InvalidPlaceholderName { var_name } =>
                ConversionErrorView::InvalidPlaceholderName { var_name: var_name@ },
        }
    }
}

/// A `WrongTypeParameter` refusal.
fn wrong_type(var_name: &str, parameter: &str, correct_type: &str) -> (r: ConversionError)
    ensures
        r@ == (ConversionErrorView::WrongTypeParameter {
            var_name: var_name@,
            parameter: parameter@,
            correct_type: correct_type@,
        }),
{
    ConversionError::WrongTypeParameter {
        var_name: owned(var_name),
        parameter: owned(parameter),
        correct_type: owned(correct_type),
    }
}

/// The entry of a table under `key`, if any: the first one, as TOML
/// tables hold each key once.
pub open spec fn key_index(t: Seq<(String, TomlValue)>, key: Seq<char>) -> Option<int>
    decreases t.len(),
{
    if t.len() == 0 {
        None
    } else if t[0].0@ == key {
        Some(0)
    } else {
        match key_index(t.drop_first(), key) {
            Some(i) => Some(i + 1),
            None => None,
        }
    }
}

/// The value under `key` in a table.
pub open spec fn field_of(t: Seq<(String, TomlValue)>, key: Seq<char>) -> Option<TomlValue> {
    match key_index(t, key) {
        Some(i) => Some(t[i].1),
        None => None,
    }
}

pub proof fn lemma_key_index(t: Seq<(String, TomlValue)>, key: Seq<char>)
    ensures
        key_index(t, key) matches Some(i) ==> 0 <= i < t.len() && t[i].0@ == key,
    decreases t.len(),
{
    if t.len() > 0 && t[0].0@ != key {
        lemma_key_index(t.drop_first(), key);
    }
}

/// The position of `key` in a table.
pub fn find_key(t: &Vec<(String, TomlValue)>, key: &str) -> (r: Option<usize>)
    ensures
        match key_index(t@, key@) {
            Some(i) => r == Some(i as usize),
            None => r is None,
        },
        r matches Some(i) ==> i < t.len(),
{
    let mut i: usize = 0;
    assert(t@.subrange(0, t@.len() as int) =~= t@);
    while i < t.len()
        invariant
            i <= t.len(),
            key_index(t@, key@) == (match key_index(t@.subrange(i as int, t@.len() as int), key@) {
                Some(j) => Some(j + i),
                None => None::<int>,
            }),
        decreases t.len() - i,
    {
        let ghost rest = t@.subrange(i as int, t@.len() as int);
        assert(rest.drop_first() =~= t@.subrange(i + 1, t@.len() as int));
        if str_eq(t[i].0.as_str(), key) {
            return Some(i);
        }
        i = i + 1;
    }
    assert(t@.subrange(i as int, t@.len() as int) =~= Seq::<(String, TomlValue)>::empty());
    None
}

/// The value under `key` in a table.
fn get_field<'a>(t: &'a Vec<(String, TomlValue)>, key: &str) -> (r: Option<&'a TomlValue>)
    ensures
        opt_val(r) == field_of(t@, key@),
{
    proof {
        lemma_key_index(t@, key@);
    }
    match find_key(t, key) {
        Some(i) => Some(&t[i].1),
        None => None,
    }
}

/// The value an optional reference points to.
pub open spec fn opt_val(o: Option<&TomlValue>) -> Option<TomlValue> {
    match o {
        Some(v) => Some(*v),
        None => None,
    }
}

/// The kind a `type` name stands for.
pub open spec fn type_named(s: Seq<char>) -> Option<SupportedVarType> {
    if s == "string"@ {
        Some(SupportedVarType::String)
    } else if s == "editor"@ {
        Some(SupportedVarType::Editor)
    } else if s == "text"@ {
        Some(SupportedVarType::Text)
    } else if s == "bool"@ {
        Some(SupportedVarType::Bool)
    } else if s == "array"@ {
        Some(SupportedVarType::Array)
    } else {
        None
    }
}

/// The kind of a placeholder, from its `type` entry: a string by default.
pub open spec fn type_spec(var_name: Seq<char>, entry: Option<TomlValue>) -> Result<
    SupportedVarType,
    ConversionErrorView,
> {
    match entry {
        None => Ok(SupportedVarType::String),
        Some(TomlValue::String(s)) => match type_named(s@) {
            Some(t) => Ok(t),
            None => Err(ConversionErrorView::InvalidVariableType { var_name, value: s@ }),
        },
        Some(_) => Err(
            ConversionErrorView::WrongTypeParameter {
                var_name,
                parameter: "type"@,
                correct_type: "String"@,
            },
        ),
    }
}

/// Reads the kind of a placeholder from its `type` entry.
pub fn extract_type(var_name: &str, table_entry: Option<&TomlValue>) -> (r: Result<
    SupportedVarType,
    ConversionError,
>)
    ensures
        match type_spec(var_name@, opt_val(table_entry)) {
            Ok(t) => r == Ok::<SupportedVarType, ConversionError>(t),
            Err(e) => r is Err && r->Err_0@ == e,
        },
{
    match table_entry {
        None => Ok(SupportedVarType::String),
        Some(TomlValue::String(value)) => {
            if str_eq(value.as_str(), "string") {
                Ok(SupportedVarType::String)
            } else if str_eq(value.as_str(), "editor") {
                Ok(SupportedVarType::Editor)
            } else if str_eq(value.as_str(), "text") {
                Ok(SupportedVarType::Text)
            } else if str_eq(value.as_str(), "bool") {
                Ok(SupportedVarType::Bool)
            } else if str_eq(value.as_str(), "array") {
                Ok(SupportedVarType::Array)
            } else {
                Err(
                    ConversionError::InvalidVariableType {
                        var_name: owned(var_name),
                        value: value.clone(),
                    },
                )
            }
        },
        Some(_) => Err(wrong_type(var_name, "type", "String")),
    }
}

/// The question of a placeholder, from its `prompt` entry, which is
/// required.
pub open spec fn prompt_spec(var_name: Seq<char>, entry: Option<TomlValue>) -> Result<
    Seq<char>,
    ConversionErrorView,
> {
    match entry {
        Some(TomlValue::String(s)) => Ok(s@),
        Some(_) => Err(
            ConversionErrorView::WrongTypeParameter {
                var_name,
                parameter: "prompt"@,
                correct_type: "String"@,
            },
        ),
        None => Err(ConversionErrorView::MissingPrompt { var_name }),
    }
}

/// Reads the question of a placeholder from its `prompt` entry.
pub fn extract_prompt(var_name: &str, table_entry: Option<&TomlValue>) -> (r: Result<
    String,
    ConversionError,
>)
    ensures
        match prompt_spec(var_name@, opt_val(table_entry)) {
            Ok(p) => r is Ok && r->Ok_0@ == p,
            Err(e) => r is Err && r->Err_0@ == e,
        },
{
    match table_entry {
        Some(TomlValue::String(value)) => Ok(value.clone()),
        Some(_) => Err(wrong_type(var_name, "prompt", "String")),
        None => Err(ConversionError::MissingPrompt { var_name: owned(var_name) }),
    }
}

/// The pattern a placeholder's values must match, from its `regex` entry:
/// only text kinds take one, and it must compile.
pub open spec fn regex_spec(
    var_name: Seq<char>,
    var_type: SupportedVarType,
    entry: Option<TomlValue>,
) -> Result<Option<Seq<char>>, ConversionErrorView> {
    match entry {
        None => Ok(None),
        Some(v) => if var_type == SupportedVarType::Bool {
            Err(ConversionErrorView::RegexOnBool { var_name })
        } else {
            match v {
                TomlValue::String(s) => if var_type == SupportedVarType::Array {
                    Err(
                        ConversionErrorView::WrongTypeParameter {
                            var_name,
                            parameter: "regex"@,
                            correct_type: "String"@,
                        },
                    )
                } else {
                    regex_outcome_spec(var_name, s@, regex_compile_error(s@))
                },
                _ => Err(
                    ConversionErrorView::WrongTypeParameter {
                        var_name,
                        parameter: "regex"@,
                        correct_type: "String"@,
                    },
                ),
            }
        },
    }
}

/// What a `regex` entry gives, once the compiler has answered.
pub open spec fn regex_outcome_spec(
    var_name: Seq<char>,
    pattern: Seq<char>,
    error: Option<Seq<char>>,
) -> Result<Option<Seq<char>>, ConversionErrorView> {
    match error {
        None => Ok(Some(pattern)),
        Some(e) => Err(ConversionErrorView::InvalidRegex { var_name, regex: pattern, error: e }),
    }
}

/// The view of an optional compiled regex.
pub open spec fn regex_view(r: Option<ValueRegex>) -> Option<Seq<char>> {
    match r {
        Some(re) => Some(re@),
        None => None,
    }
}

/// What a `regex` entry with text `pattern` gives, given what the compiler
/// answered for it.
pub fn regex_outcome(var_name: &str, pattern: &str, compiled: Result<ValueRegex, String>) -> (r: Result<
    Option<ValueRegex>,
    ConversionError,
>)
    requires
        compiled matches Ok(re) ==> re@ == pattern@,
    ensures
        match regex_outcome_spec(
            var_name@,
            pattern@,
            match compiled {
                Ok(_) => None,
                Err(e) => Some(e@),
            },
        ) {
            Ok(p) => r is Ok && regex_view(r->Ok_0) == p,
            Err(e) => r is Err && r->Err_0@ == e,
        },
{
    match compiled {
        Ok(re) => Ok(Some(re)),
        Err(e) => Err(
            ConversionError::InvalidRegex { var_name: owned(var_name), regex: owned(pattern), error: e },
        ),
    }
}

/// Reads and compiles the pattern of a placeholder from its `regex` entry.
pub fn extract_regex(var_name: &str, var_type: SupportedVarType, table_entry: Option<&TomlValue>) -> (r: Result<
    Option<ValueRegex>,
    ConversionError,
>)
    ensures
        match regex_spec(var_name@, var_type, opt_val(table_entry)) {
            Ok(p) => r is Ok && regex_view(r->Ok_0) == p,
            Err(e) => r is Err && r->Err_0@ == e,
        },
{
    match table_entry {
        None => Ok(None),
        Some(v) => {
            if var_type == SupportedVarType::Bool {
                return Err(ConversionError::RegexOnBool { var_name: owned(var_name) });
            }
            match v {
                TomlValue::String(s) => {
                    if var_type == SupportedVarType::Array {
                        Err(wrong_type(var_name, "regex", "String"))
                    } else {
                        let compiled = ValueRegex::new(s.as_str());
                        regex_outcome(var_name, s.as_str(), compiled)
                    }
                },
                _ => Err(wrong_type(var_name, "regex", "String")),
            }
        },
    }
}

/// The choice a `choices` entry stands for: a string is a choice labelled
/// by itself; a table needs a string `value` and may have a string
/// `label`.
pub open spec fn choice_of(entry: TomlValue) -> Option<ChoiceView> {
    match entry {
        TomlValue::String(s) => Some(ChoiceView { value: s@, label: s@ }),
        TomlValue::Table(t) => match field_of(t@, "value"@) {
            Some(TomlValue::String(v)) => match field_of(t@, "label"@) {
                Some(TomlValue::String(l)) => Some(ChoiceView { value: v@, label: l@ }),
                None => Some(ChoiceView { value: v@, label: v@ }),
                Some(_) => None,
            },
            _ => None,
        },
        _ => None,
    }
}

/// Turns one `choices` entry into a [`Choice`].
pub fn convert_choice_entry(var_name: &str, entry: &TomlValue) -> (r: Result<Choice, ConversionError>)
    ensures
        match choice_of(*entry) {
            Some(c) => r is Ok && r->Ok_0@ == c,
            None => r is Err && r->Err_0@ == (ConversionErrorView::InvalidChoiceEntry {
                var_name: var_name@,
            }),
        },
{
    match entry {
        TomlValue::String(s) => Ok(Choice::new(s.clone())),
        TomlValue::Table(table) => {
            let value = match get_field(table, "value") {
                Some(TomlValue::String(value)) => value.clone(),
                _ => {
                    return Err(ConversionError::InvalidChoiceEntry { var_name: owned(var_name) });
                },
            };
            match get_field(table, "label") {
                Some(TomlValue::String(label)) => Ok(Choice::with_label(value, label.clone())),
                None => Ok(Choice::new(value)),
                Some(_) => Err(ConversionError::InvalidChoiceEntry { var_name: owned(var_name) }),
            }
        },
        _ => Err(ConversionError::InvalidChoiceEntry { var_name: owned(var_name) }),
    }
}

/// Every entry stands for a choice.
pub open spec fn all_choices(entries: Seq<TomlValue>) -> bool {
    forall|i: int| 0 <= i < entries.len() ==> (#[trigger] choice_of(entries[i])) is Some
}

/// The choices the entries stand for.
pub open spec fn choices_of(entries: Seq<TomlValue>) -> Seq<ChoiceView> {
    entries.map_values(|e: TomlValue| choice_of(e)->Some_0)
}

/// The `Debug` name of a kind.
pub open spec fn type_debug_name(t: SupportedVarType) -> Seq<char> {
    match t {
        SupportedVarType::Bool => "Bool"@,
        SupportedVarType::String => "String"@,
        SupportedVarType::Editor => "Editor"@,
        SupportedVarType::Text => "Text"@,
        SupportedVarType::Array => "Array"@,
    }
}

fn type_debug_text(t: SupportedVarType) -> (r: String)
    ensures
        r@ == type_debug_name(t),
{
    match t {
        SupportedVarType::Bool => owned("Bool"),
        SupportedVarType::String => owned("String"),
        SupportedVarType::Editor => owned("Editor"),
        SupportedVarType::Text => owned("Text"),
        SupportedVarType::Array => owned("Array"),
    }
}

/// The choices of a placeholder, from its `choices` entry, given whether
/// the values of the choices all match the placeholder's regex
/// (`all_match`; the regex is checked for the string kind only).
pub open spec fn choices_spec_given(
    var_name: Seq<char>,
    var_type: SupportedVarType,
    all_match: bool,
    entry: Option<TomlValue>,
) -> Result<Option<Seq<ChoiceView>>, ConversionErrorView> {
    match entry {
        None => Ok(None),
        Some(v) => if var_type == SupportedVarType::Bool || var_type == SupportedVarType::Editor
            || var_type == SupportedVarType::Text {
            Err(ConversionErrorView::UnsupportedChoices { var_type: type_debug_name(var_type) })
        } else {
            match v {
                TomlValue::Array(arr) => if var_type == SupportedVarType::String && arr@.len()
                    == 0 {
                    Err(ConversionErrorView::EmptyChoices { var_name })
                } else if !all_choices(arr@) {
                    Err(ConversionErrorView::InvalidChoiceEntry { var_name })
                } else if var_type == SupportedVarType::String && !all_match {
                    Err(
                        ConversionErrorView::RegexDoesntMatchField {
                            var_name,
                            field: "choices"@,
                        },
                    )
                } else {
                    Ok(Some(choices_of(arr@)))
                },
                _ => Err(
                    ConversionErrorView::WrongTypeParameter {
                        var_name,
                        parameter: "choices"@,
                        correct_type: "String Array"@,
                    },
                ),
            }
        },
    }
}

/// Whether the value of every choice that `entry` stands for matches the
/// regex `regex`, if there is one.
pub open spec fn choices_match(regex: Option<Seq<char>>, entry: Option<TomlValue>) -> bool {
    match (regex, entry) {
        (Some(p), Some(TomlValue::Array(arr))) => forall|i: int|
            0 <= i < arr@.len() && (#[trigger] choice_of(arr@[i])) is Some ==> regex_matches(
                p,
                choice_of(arr@[i])->Some_0.value,
            ),
        _ => true,
    }
}

/// The choices of a placeholder, from its `choices` entry.
pub open spec fn choices_spec(
    var_name: Seq<char>,
    var_type: SupportedVarType,
    regex: Option<Seq<char>>,
    entry: Option<TomlValue>,
) -> Result<Option<Seq<ChoiceView>>, ConversionErrorView> {
    choices_spec_given(var_name, var_type, choices_match(regex, entry), entry)
}

pub open spec fn opt_choices_view(o: Option<Vec<Choice>>) -> Option<Seq<ChoiceView>> {
    match o {
        Some(v) => Some(choices_view(v@)),
        None => None,
    }
}

/// Reads the choices of a placeholder from its `choices` entry, given
/// whether the values all match the placeholder's regex.
pub fn extract_choices_given(
    var_name: &str,
    var_type: SupportedVarType,
    all_match: bool,
    table_entry: Option<&TomlValue>,
) -> (r: Result<Option<Vec<Choice>>, ConversionError>)
    ensures
        match choices_spec_given(var_name@, var_type, all_match, opt_val(table_entry)) {
            Ok(c) => r is Ok && opt_choices_view(r->Ok_0) == c,
            Err(e) => r is Err && r->Err_0@ == e,
        },
{
    match table_entry {
        None => Ok(None),
        Some(v) => {
            if var_type == SupportedVarType::Bool || var_type == SupportedVarType::Editor
                || var_type == SupportedVarType::Text {
                return Err(ConversionError::UnsupportedChoices { var_type: type_debug_text(var_type) });
            }
            match v {
                TomlValue::Array(arr) => {
                    if var_type == SupportedVarType::String && arr.len() == 0 {
                        return Err(ConversionError::EmptyChoices { var_name: owned(var_name) });
                    }
                    let mut choices: Vec<Choice> = Vec::new();
                    let mut i: usize = 0;
                    while i < arr.len()
                        invariant
                            i <= arr.len(),
                            choices.len() == i,
                            opt_val(table_entry) == Some(TomlValue::Array(*arr)),
                            var_type == SupportedVarType::String || var_type
                                == SupportedVarType::Array,
                            !(var_type == SupportedVarType::String && arr@.len() == 0),
                            forall|j: int| 0 <= j < i ==> (#[trigger] choice_of(arr@[j])) is Some
                                && choices@[j]@ == choice_of(arr@[j])->Some_0,
                        decreases arr.len() - i,
                    {
                        match convert_choice_entry(var_name, &arr[i]) {
                            Ok(c) => choices.push(c),
                            Err(e) => {
                                assert(choice_of(arr@[i as int]) is None);
                                return Err(e);
                            },
                        }
                        i = i + 1;
                    }
                    assert(all_choices(arr@));
                    assert(choices_view(choices@) =~= choices_of(arr@));
                    if var_type == SupportedVarType::String && !all_match {
                        return Err(
                            ConversionError::RegexDoesntMatchField {
                                var_name: owned(var_name),
                                field: owned("choices"),
                            },
                        );
                    }
                    Ok(Some(choices))
                },
                _ => Err(wrong_type(var_name, "choices", "String Array")),
            }
        },
    }
}

/// Whether the value of every choice that `entries` stand for matches
/// `regex`.
fn all_choice_values_match(re: &ValueRegex, entries: &Vec<TomlValue>) -> (r: bool)
    ensures
        r == (forall|i: int|
            0 <= i < entries@.len() && (#[trigger] choice_of(entries@[i])) is Some
                ==> regex_matches(re@, choice_of(entries@[i])->Some_0.value)),
{
    let mut i: usize = 0;
    while i < entries.len()
        invariant
            i <= entries.len(),
            forall|j: int|
                0 <= j < i && (#[trigger] choice_of(entries@[j])) is Some ==> regex_matches(
                    re@,
                    choice_of(entries@[j])->Some_0.value,
                ),
        decreases entries.len() - i,
    {
        match convert_choice_entry("", &entries[i]) {
            Ok(c) => {
                if !re.is_match(c.value.as_str()) {
                    return false;
                }
            },
            Err(_) => {},
        }
        i = i + 1;
    }
    true
}

/// Reads the choices of a placeholder from its `choices` entry; for the
/// string kind, the value of every choice must match `regex`.
pub fn extract_choices(
    var_name: &str,
    var_type: SupportedVarType,
    regex: Option<&ValueRegex>,
    table_entry: Option<&TomlValue>,
) -> (r: Result<Option<Vec<Choice>>, ConversionError>)
    ensures
        match choices_spec(
            var_name@,
            var_type,
            match regex {
                Some(re) => Some(re@),
                None => None,
            },
            opt_val(table_entry),
        ) {
            Ok(c) => r is Ok && opt_choices_view(r->Ok_0) == c,
            Err(e) => r is Err && r->Err_0@ == e,
        },
{
    let all_match = match (regex, table_entry) {
        (Some(re), Some(TomlValue::Array(arr))) => all_choice_values_match(re, arr),
        _ => true,
    };
    extract_choices_given(var_name, var_type, all_match, table_entry)
}

/// The text of a TOML string; any other value counts as empty text.
pub open spec fn str_or_empty(v: TomlValue) -> Seq<char> {
    match v {
        TomlValue::String(s) => s@,
        _ => Seq::empty(),
    }
}

/// Some choice has the value `v`.
pub open spec fn in_values(v: Seq<char>, cs: Seq<ChoiceView>) -> bool {
    exists|i: int| 0 <= i < cs.len() && (#[trigger] cs[i]).value == v
}

/// The kind names that a wrong `default` refusal reports.
pub open spec fn lower_type_name(t: SupportedVarType) -> Seq<char> {
    match t {
        SupportedVarType::Bool => "bool"@,
        SupportedVarType::String => "string"@,
        SupportedVarType::Editor => "editor"@,
        SupportedVarType::Text => "text"@,
        SupportedVarType::Array => "array"@,
    }
}

fn lower_type_text(t: SupportedVarType) -> (r: String)
    ensures
        r@ == lower_type_name(t),
{
    match t {
        SupportedVarType::Bool => owned("bool"),
        SupportedVarType::String => owned("string"),
        SupportedVarType::Editor => owned("editor"),
        SupportedVarType::Text => owned("text"),
        SupportedVarType::Array => owned("array"),
    }
}

/// The kinds whose values are text.
pub open spec fn is_text_kind(t: SupportedVarType) -> bool {
    t == SupportedVarType::String || t == SupportedVarType::Editor || t == SupportedVarType::Text
}

/// The default of a placeholder, from its `default` entry, given the
/// choices read before and whether a text default matches the
/// placeholder's regex (`default_matches`).
pub open spec fn default_spec_given(
    var_name: Seq<char>,
    var_type: SupportedVarType,
    default_matches: bool,
    entry: Option<TomlValue>,
    choices: Option<Seq<ChoiceView>>,
) -> Result<Option<SupportedValueView>, ConversionErrorView> {
    let wrong = Err(
        ConversionErrorView::WrongTypeParameter {
            var_name,
            parameter: "default"@,
            correct_type: lower_type_name(var_type),
        },
    );
    let no_match = Err(
        ConversionErrorView::RegexDoesntMatchField { var_name, field: "default"@ },
    );
    match entry {
        None => Ok(None),
        Some(TomlValue::Boolean(b)) => if var_type == SupportedVarType::Bool {
            Ok(Some(SupportedValueView::Bool(b)))
        } else {
            wrong
        },
        Some(TomlValue::String(s)) => if is_text_kind(var_type) {
            match choices {
                None => if default_matches {
                    Ok(Some(SupportedValueView::String(s@)))
                } else {
                    no_match
                },
                Some(cs) => if !in_values(s@, cs) {
                    Err(
                        ConversionErrorView::InvalidDefault {
                            var_name,
                            default: s@,
                            choices: values_of(cs),
                        },
                    )
                } else if default_matches {
                    Ok(Some(SupportedValueView::String(s@)))
                } else {
                    no_match
                },
            }
        } else {
            wrong
        },
        Some(TomlValue::Array(ds)) => if var_type == SupportedVarType::Array && choices is Some {
            let vals = ds@.map_values(|d: TomlValue| str_or_empty(d));
            if forall|i: int| 0 <= i < vals.len() ==> #[trigger] in_values(vals[i], choices->Some_0) {
                Ok(Some(SupportedValueView::Array(vals)))
            } else {
                Err(
                    ConversionErrorView::InvalidDefault {
                        var_name,
                        default: join_with(vals, ","@),
                        choices: values_of(choices->Some_0),
                    },
                )
            }
        } else {
            wrong
        },
        Some(_) => wrong,
    }
}

/// Whether a text default matches the regex, if there are both.
pub open spec fn default_matches(regex: Option<Seq<char>>, entry: Option<TomlValue>) -> bool {
    match (regex, entry) {
        (Some(p), Some(TomlValue::String(s))) => regex_matches(p, s@),
        _ => true,
    }
}

/// The default of a placeholder, from its `default` entry.
pub open spec fn default_spec(
    var_name: Seq<char>,
    var_type: SupportedVarType,
    regex: Option<Seq<char>>,
    entry: Option<TomlValue>,
    choices: Option<Seq<ChoiceView>>,
) -> Result<Option<SupportedValueView>, ConversionErrorView> {
    default_spec_given(var_name, var_type, default_matches(regex, entry), entry, choices)
}

pub open spec fn opt_value_view(o: Option<SupportedVarValue>) -> Option<SupportedValueView> {
    match o {
        Some(v) => Some(v@),
        None => None,
    }
}

/// Whether some choice has the value `v`.
fn has_choice_value(cs: &Vec<Choice>, v: &str) -> (r: bool)
    ensures
        r == in_values(v@, choices_view(cs@)),
{
    let mut i: usize = 0;
    while i < cs.len()
        invariant
            i <= cs.len(),
            forall|j: int| 0 <= j < i ==> cs@[j].value@ != v@,
        decreases cs.len() - i,
    {
        if str_eq(cs[i].value.as_str(), v) {
            assert(choices_view(cs@)[i as int].value == v@);
            return true;
        }
        i = i + 1;
    }
    assert forall|j: int| 0 <= j < cs@.len() implies #[trigger] choices_view(cs@)[j].value != v@ by {
        assert(choices_view(cs@)[j] == cs@[j]@);
    }
    false
}

/// Reads the default of a placeholder from its `default` entry, given the
/// choices read before and whether a text default matches the
/// placeholder's regex.
pub fn extract_default_given(
    var_name: &str,
    var_type: SupportedVarType,
    default_matches: bool,
    table_entry: Option<&TomlValue>,
    choices: Option<&Vec<Choice>>,
) -> (r: Result<Option<SupportedVarValue>, ConversionError>)
    ensures
        match default_spec_given(
            var_name@,
            var_type,
            default_matches,
            opt_val(table_entry),
            match choices {
                Some(c) => Some(choices_view(c@)),
                None => None,
            },
        ) {
            Ok(d) => r is Ok && opt_value_view(r->Ok_0) == d,
            Err(e) => r is Err && r->Err_0@ == e,
        },
{
    let is_text = var_type == SupportedVarType::String || var_type == SupportedVarType::Editor
        || var_type == SupportedVarType::Text;
    match table_entry {
        None => Ok(None),
        Some(TomlValue::Boolean(b)) if var_type == SupportedVarType::Bool => Ok(
            Some(SupportedVarValue::Bool(*b)),
        ),
        Some(TomlValue::String(s)) if is_text => {
            match choices {
                Some(cs) => {
                    if !has_choice_value(cs, s.as_str()) {
                        return Err(
                            ConversionError::InvalidDefault {
                                var_name: owned(var_name),
                                default: s.clone(),
                                choices: choice_values(cs),
                            },
                        );
                    }
                },
                None => {},
            }
            if default_matches {
                Ok(Some(SupportedVarValue::String(s.clone())))
            } else {
                Err(
                    ConversionError::RegexDoesntMatchField {
                        var_name: owned(var_name),
                        field: owned("default"),
                    },
                )
            }
        },
        Some(TomlValue::Array(ds)) if var_type == SupportedVarType::Array && choices.is_some() => {
            let cs = choices.unwrap();
            let ghost vals = ds@.map_values(|d: TomlValue| str_or_empty(d));
            let mut defaults: Vec<String> = Vec::new();
            let mut all_in = true;
            let mut i: usize = 0;
            while i < ds.len()
                invariant
                    i <= ds.len(),
                    defaults.len() == i,
                    vals == ds@.map_values(|d: TomlValue| str_or_empty(d)),
                    forall|j: int| 0 <= j < i ==> #[trigger] defaults@[j]@ == vals[j],
                    all_in == (forall|j: int| 0 <= j < i ==> #[trigger] in_values(
                        vals[j],
                        choices_view(cs@),
                    )),
                decreases ds.len() - i,
            {
                let text = match &ds[i] {
                    TomlValue::String(t) => t.clone(),
                    _ => String::new(),
                };
                assert(text@ == vals[i as int]);
                if !has_choice_value(cs, text.as_str()) {
                    all_in = false;
                }
                defaults.push(text);
                i = i + 1;
            }
            assert(texts(defaults@) =~= vals);
            if all_in {
                Ok(Some(SupportedVarValue::Array(defaults)))
            } else {
                Err(
                    ConversionError::InvalidDefault {
                        var_name: owned(var_name),
                        default: join_strings(&defaults, LIST_SEP),
                        choices: choice_values(cs),
                    },
                )
            }
        },
        Some(_) => Err(
            ConversionError::WrongTypeParameter {
                var_name: owned(var_name),
                parameter: owned("default"),
                correct_type: lower_type_text(var_type),
            },
        ),
    }
}

/// Reads the default of a placeholder from its `default` entry, checked
/// against the choices read before and against `regex`.
pub fn extract_default(
    var_name: &str,
    var_type: SupportedVarType,
    regex: Option<&ValueRegex>,
    table_entry: Option<&TomlValue>,
    choices: Option<&Vec<Choice>>,
) -> (r: Result<Option<SupportedVarValue>, ConversionError>)
    ensures
        match default_spec(
            var_name@,
            var_type,
            match regex {
                Some(re) => Some(re@),
                None => None,
            },
            opt_val(table_entry),
            match choices {
                Some(c) => Some(choices_view(c@)),
                None => None,
            },
        ) {
            Ok(d) => r is Ok && opt_value_view(r->Ok_0) == d,
            Err(e) => r is Err && r->Err_0@ == e,
        },
{
    let matches = match (regex, table_entry) {
        (Some(re), Some(TomlValue::String(s))) => re.is_match(s.as_str()),
        _ => true,
    };
    extract_default_given(var_name, var_type, matches, table_entry, choices)
}

/// A question, and the question with its default value shown.
#[derive(Debug, Clone)]
pub struct Prompt {
    pub raw: String,
    pub with_default: String,
}

/// The question with its default shown after it.
pub open spec fn with_default_text(prompt: Seq<char>, default: Option<Seq<char>>) -> Seq<char> {
    match default {
        Some(d) => prompt + " [default: "@ + d + "]"@,
        None => prompt,
    }
}

impl Prompt {
    /// The question `prompt`, with the default `default` when there is one.
    pub fn new(prompt: String, default: Option<String>) -> (r: Prompt)
        ensures
            r.raw == prompt,
            r.with_default@ == with_default_text(
                prompt@,
                match default {
                    Some(d) => Some(d@),
                    None => None,
                },
            ),
    {
        let mut with_default = prompt.clone();
        match default {
            Some(d) => {
                with_default.append(" [default: ");
                with_default.append(d.as_str());
                with_default.append("]");
            },
            None => {},
        }
        Prompt { raw: prompt, with_default }
    }
}

/// How a text value is asked for.
#[derive(Debug, Clone)]
pub enum StringKind {
    Choices(Vec<Choice>),
    String,
    Editor,
    Text,
}

/// What is needed to ask for a text value.
#[derive(Debug, Clone)]
pub struct StringEntry {
    pub default: Option<String>,
    pub kind: StringKind,
    pub regex: Option<ValueRegex>,
}

/// What is needed to ask for a list of choices.
#[derive(Debug, Clone)]
pub struct ArrayEntry {
    pub default: Option<Vec<String>>,
    pub choices: Vec<Choice>,
}

/// What is needed to ask for a value of each kind.
#[derive(Debug, Clone)]
pub enum VarInfo {
    Array { entry: Box<ArrayEntry> },
    Bool { default: Option<bool> },
    String { entry: Box<StringEntry> },
}

/// A placeholder, ready to be asked for.
#[derive(Debug)]
pub struct TemplateSlots {
    pub var_name: String,
    pub var_info: VarInfo,
    pub prompt: Prompt,
}

pub enum StringKindView {
    Choices(Seq<ChoiceView>),
    String,
    Editor,
    Text,
}

pub enum VarInfoView {
    Array { default: Option<Seq<Seq<char>>>, choices: Seq<ChoiceView> },
    Bool { default: Option<bool> },
    String { default: Option<Seq<char>>, kind: StringKindView, regex: Option<Seq<char>> },
}

/// A placeholder as text: its name, what to ask and its question.
pub struct SlotView {
    pub var_name: Seq<char>,
    pub var_info: VarInfoView,
    pub prompt: Seq<char>,
    pub prompt_with_default: Seq<char>,
}

pub open spec fn opt_text(o: Option<String>) -> Option<Seq<char>> {
    match o {
        Some(s) => Some(s@),
        None => None,
    }
}

pub open spec fn opt_texts(o: Option<Vec<String>>) -> Option<Seq<Seq<char>>> {
    match o {
        Some(v) => Some(texts(v@)),
        None => None,
    }
}

impl View for StringKind {
    type V = StringKindView;

    open spec fn view(&self) -> StringKindView {
        match self {
            StringKind::Choices(c) => StringKindView::Choices(choices_view(c@)),
            StringKind::String => StringKindView::String,
            StringKind::Editor => StringKindView::Editor,
            StringKind::Text => StringKindView::Text,
        }
    }
}

impl View for VarInfo {
    type V = VarInfoView;

    open spec fn view(&self) -> VarInfoView {
        match self {
            VarInfo::Array { entry } => VarInfoView::Array {
                default: opt_texts(entry.default),
                choices: choices_view(entry.choices@),
            },
            VarInfo::Bool { default } => VarInfoView::Bool { default: *default },
            VarInfo::String { entry } => VarInfoView::String {
                default: opt_text(entry.default),
                kind: entry.kind@,
                regex: regex_view(entry.regex),
            },
        }
    }
}

impl View for TemplateSlots {
    type V = SlotView;

    open spec fn view(&self) -> SlotView {
        SlotView {
            var_name: self.var_name@,
            var_info: self.var_info@,
            prompt: self.prompt.raw@,
            prompt_with_default: self.prompt.with_default@,
        }
    }
}

/// The names a placeholder cannot take: the values the generator sets
/// itself.
pub open spec fn is_reserved(name: Seq<char>) -> bool {
    name == "authors"@ || name == "os-arch"@ || name == "project-name"@ || name == "crate_name"@
        || name == "crate_type"@ || name == "within_cargo_project"@ || name == "is_init"@
}

fn is_reserved_name(name: &str) -> (r: bool)
    ensures
        r == is_reserved(name@),
{
    str_eq(name, "authors") || str_eq(name, "os-arch") || str_eq(name, "project-name") || str_eq(
        name,
        "crate_name",
    ) || str_eq(name, "crate_type") || str_eq(name, "within_cargo_project") || str_eq(
        name,
        "is_init",
    )
}

/// What to ask for a placeholder of kind `t`, with regex `re`, choices `cs`
/// and default `d`; a default of another kind than the placeholder's is
/// dropped.
pub open spec fn info_of(
    t: SupportedVarType,
    re: Option<Seq<char>>,
    cs: Option<Seq<ChoiceView>>,
    d: Option<SupportedValueView>,
) -> VarInfoView {
    let text_default = match d {
        Some(SupportedValueView::String(s)) => Some(s),
        _ => None,
    };
    match t {
        SupportedVarType::Bool => VarInfoView::Bool {
            default: match d {
                Some(SupportedValueView::Bool(b)) => Some(b),
                _ => None,
            },
        },
        SupportedVarType::String => VarInfoView::String {
            default: text_default,
            kind: match cs {
                Some(c) => StringKindView::Choices(c),
                None => StringKindView::String,
            },
            regex: re,
        },
        SupportedVarType::Editor => VarInfoView::String {
            default: text_default,
            kind: StringKindView::Editor,
            regex: re,
        },
        SupportedVarType::Text => VarInfoView::String {
            default: text_default,
            kind: StringKindView::Text,
            regex: re,
        },
        SupportedVarType::Array => VarInfoView::Array {
            default: match d {
                Some(SupportedValueView::Array(a)) => Some(a),
                _ => None,
            },
            choices: match cs {
                Some(c) => c,
                None => Seq::empty(),
            },
        },
    }
}

/// A placeholder named `key` defined by `value`: its entries are read in
/// the order `type`, `regex`, `prompt`, `choices`, `default`, and the first
/// refusal is the answer.
pub open spec fn slot_spec(key: Seq<char>, value: TomlValue) -> Result<SlotView, ConversionErrorView> {
    if is_reserved(key) {
        Err(ConversionErrorView::InvalidPlaceholderName { var_name: key })
    } else {
        match value {
            TomlValue::Table(t) => match type_spec(key, field_of(t@, "type"@)) {
                Err(e) => Err(e),
                Ok(vt) => match regex_spec(key, vt, field_of(t@, "regex"@)) {
                    Err(e) => Err(e),
                    Ok(re) => match prompt_spec(key, field_of(t@, "prompt"@)) {
                        Err(e) => Err(e),
                        Ok(p) => match choices_spec(key, vt, re, field_of(t@, "choices"@)) {
                            Err(e) => Err(e),
                            Ok(cs) => match default_spec(key, vt, re, field_of(t@, "default"@), cs) {
                                Err(e) => Err(e),
                                Ok(d) => Ok(
                                    SlotView {
                                        var_name: key,
                                        var_info: info_of(vt, re, cs, d),
                                        prompt: p,
                                        prompt_with_default: p,
                                    },
                                ),
                            },
                        },
                    },
                },
            },
            _ => Err(ConversionErrorView::InvalidPlaceholderFormat { var_name: key }),
        }
    }
}

/// Checks the definition `values` of the placeholder `key` and turns it
/// into what to ask.
pub fn try_key_value_into_slot(key: &str, values: &TomlValue) -> (r: Result<TemplateSlots, ConversionError>)
    ensures
        match slot_spec(key@, *values) {
            Ok(sv) => r is Ok && r->Ok_0@ == sv,
            Err(e) => r is Err && r->Err_0@ == e,
        },
{
    if is_reserved_name(key) {
        return Err(ConversionError::InvalidPlaceholderName { var_name: owned(key) });
    }
    let table = match values {
        TomlValue::Table(t) => t,
        _ => {
            return Err(ConversionError::InvalidPlaceholderFormat { var_name: owned(key) });
        },
    };
    let var_type = extract_type(key, get_field(table, "type"))?;
    let regex = extract_regex(key, var_type, get_field(table, "regex"))?;
    let prompt = extract_prompt(key, get_field(table, "prompt"))?;
    let choices = extract_choices(key, var_type, regex.as_ref(), get_field(table, "choices"))?;
    let default_choice = extract_default(
        key,
        var_type,
        regex.as_ref(),
        get_field(table, "default"),
        choices.as_ref(),
    )?;
    let var_info = match var_type {
        SupportedVarType::Bool => VarInfo::Bool {
            default: match default_choice {
                Some(SupportedVarValue::Bool(b)) => Some(b),
                _ => None,
            },
        },
        SupportedVarType::Array => VarInfo::Array {
            entry: Box::new(
                ArrayEntry {
                    default: match default_choice {
                        Some(SupportedVarValue::Array(a)) => Some(a),
                        _ => None,
                    },
                    choices: match choices {
                        Some(c) => c,
                        None => Vec::new(),
                    },
                },
            ),
        },
        _ => {
            let kind = match var_type {
                SupportedVarType::Editor => StringKind::Editor,
                SupportedVarType::Text => StringKind::Text,
                _ => match choices {
                    Some(c) => StringKind::Choices(c),
                    None => StringKind::String,
                },
            };
            VarInfo::String {
                entry: Box::new(
                    StringEntry {
                        default: match default_choice {
                            Some(SupportedVarValue::String(s)) => Some(s),
                            _ => None,
                        },
                        kind,
                        regex,
                    },
                ),
            }
        },
    };
    assert(choices_view(Seq::<Choice>::empty()) =~= Seq::<ChoiceView>::empty());
    let p = Prompt::new(prompt, None);
    assert(p.with_default@ == p.raw@);
    Ok(TemplateSlots { var_name: owned(key), var_info, prompt: p })
}

/// The placeholder definitions of a table, in order.
pub open spec fn entry_slot(t: Seq<(String, TomlValue)>, i: int) -> Result<SlotView, ConversionErrorView> {
    slot_spec(t[i].0@, t[i].1)
}

/// Checks every placeholder of the table, in order: the first refusal is
/// the answer, else every placeholder, in table order.
pub fn try_into_template_slots(table: &TemplateSlotsTable) -> (r: Result<Vec<TemplateSlots>, ConversionError>)
    ensures
        match r {
            Ok(v) => v.len() == table.0.len() && forall|i: int|
                0 <= i < v.len() ==> #[trigger] entry_slot(table.0@, i) == Ok::<
                    SlotView,
                    ConversionErrorView,
                >(v@[i]@),
            Err(e) => exists|i: int|
                0 <= i < table.0.len() && entry_slot(table.0@, i) == Err::<
                    SlotView,
                    ConversionErrorView,
                >(e@) && forall|j: int| 0 <= j < i ==> (#[trigger] entry_slot(table.0@, j)) is Ok,
        },
{
    let t = &table.0;
    let mut slots: Vec<TemplateSlots> = Vec::new();
    let mut i: usize = 0;
    while i < t.len()
        invariant
            i <= t.len(),
            t == &table.0,
            slots.len() == i,
            forall|j: int|
                0 <= j < i ==> #[trigger] entry_slot(t@, j) == Ok::<SlotView, ConversionErrorView>(
                    slots@[j]@,
                ),
        decreases t.len() - i,
    {
        match try_key_value_into_slot(t[i].0.as_str(), &t[i].1) {
            Ok(slot) => slots.push(slot),
            Err(e) => {
                assert(entry_slot(t@, i as int) == Err::<SlotView, ConversionErrorView>(e@));
                assert forall|j: int| 0 <= j < i implies (#[trigger] entry_slot(t@, j)) is Ok by {
                    assert(entry_slot(t@, j) == Ok::<SlotView, ConversionErrorView>(slots@[j]@));
                }
                return Err(e);
            },
        }
        i = i + 1;
    }
    Ok(slots)
}

/// How `{:?}` prints a list of strings: each as `{:?}` prints it,
/// separated by `, `, in brackets.
pub open spec fn debug_strings(items: Seq<Seq<char>>) -> Seq<char> {
    "["@ + join_with(items.map_values(|i: Seq<char>| debug_text(i)), ", "@) + "]"@
}

/// `format!("{:?}", ..)` on a list of strings.
fn debug_format_strings(items: &Vec<String>) -> (r: String)
    ensures
        r@ == debug_strings(texts(items@)),
{
    let ghost shown = texts(items@).map_values(|i: Seq<char>| debug_text(i));
    let mut r = owned("[");
    let ghost head = r@;
    let mut i: usize = 0;
    while i < items.len()
        invariant
            i <= items.len(),
            shown == texts(items@).map_values(|i: Seq<char>| debug_text(i)),
            r@ == head + join_with(shown.subrange(0, i as int), ", "@),
        decreases items.len() - i,
    {
        let ghost pre = shown.subrange(0, i as int);
        let ghost post = shown.subrange(0, i + 1);
        assert(post.drop_last() =~= pre);
        if i > 0 {
            r.append(", ");
        }
        let d = debug_str(items[i].as_str());
        r.append(d.as_str());
        i = i + 1;
        proof {
            assert(post.last() == debug_text(items@[i - 1]@));
            if i == 1 {
                assert(join_with(pre, ", "@) =~= Seq::<char>::empty());
            }
        }
        assert(r@ =~= head + join_with(post, ", "@));
    }
    assert(shown.subrange(0, i as int) =~= shown);
    r.append("]");
    r
}

/// The text a refusal reads as.
pub open spec fn error_message(e: ConversionErrorView) -> Seq<char> {
    match e {
        ConversionErrorView::WrongTypeParameter { var_name, parameter, correct_type } =>
            "parameter `"@ + parameter + "` of placeholder `"@ + var_name + "` should be a `"@
            + correct_type + "`"@,
        ConversionErrorView::InvalidPlaceholderFormat { var_name } => "placeholder `"@ + var_name
            + "` should be a table"@,
        ConversionErrorView::MissingPrompt { var_name } => "missing prompt question for `"@
            + var_name + "`"@,
        ConversionErrorView::EmptyChoices { var_name } => "choices array empty for `"@ + var_name
            + "`"@,
        ConversionErrorView::InvalidChoiceEntry { var_name } => "choice entry of `"@ + var_name
            + "` must be a string or a table with a string `value` field and an optional string `label`"@,
        ConversionErrorView::InvalidDefault { var_name, default, choices } => "default is `"@
            + default + "`, but is not a valid value in choices array `"@ + debug_strings(choices)
            + "` for `"@ + var_name + "`"@,
        ConversionErrorView::InvalidVariableType { var_name, value } =>
            "invalid type for variable `"@ + var_name + "`: `"@ + value
            + "` possible values are `bool`, `string`, `text` and `editor`"@,
        ConversionErrorView::UnsupportedChoices { var_type } => var_type
            + " type does not support `choices` field"@,
        ConversionErrorView::RegexOnBool { .. } => "bool type does not support `regex` field"@,
        ConversionErrorView::MissingDefaultValueForPlaceholderVariable { var_name } =>
            "variable `"@ + var_name
            + "` is missing default value in config file running in silent mode"@,
        ConversionErrorView::RegexDoesntMatchField { var_name, field } => "field `"@ + field
            + "` of variable `"@ + var_name + "` does not match configured regex"@,
        ConversionErrorView::InvalidRegex { var_name, error, .. } => "regex of `"@ + var_name
            + "` is not a valid regex. "@ + error,
        ConversionErrorView::InvalidPlaceholderName { var_name } => "placeholder `"@ + var_name
            + "` is not valid as you can't override `project-name`, `crate_name`, `crate_type`, `authors` and `os-arch`"@,
    }
}

impl ConversionError {
    /// The text of the refusal.
    pub fn message(&self) -> (r: String)
        ensures
            r@ == error_message(self@),
    {
        let mut s = String::new();
        match self {
            ConversionError::WrongTypeParameter { var_name, parameter, correct_type } => {
                s.append("parameter `");
                s.append(parameter.as_str());
                s.append("` of placeholder `");
                s.append(var_name.as_str());
                s.append("` should be a `");
                s.append(correct_type.as_str());
                s.append("`");
            },
            ConversionError::InvalidPlaceholderFormat { var_name } => {
                s.append("placeholder `");
                s.append(var_name.as_str());
                s.append("` should be a table");
            },
            ConversionError::MissingPrompt { var_name } => {
                s.append("missing prompt question for `");
                s.append(var_name.as_str());
                s.append("`");
            },
            ConversionError::EmptyChoices { var_name } => {
                s.append("choices array empty for `");
                s.append(var_name.as_str());
                s.append("`");
            },
            ConversionError::InvalidChoiceEntry { var_name } => {
                s.append("choice entry of `");
                s.append(var_name.as_str());
                s.append(
                    "` must be a string or a table with a string `value` field and an optional string `label`",
                );
            },
            ConversionError::InvalidDefault { var_name, default, choices } => {
                s.append("default is `");
                s.append(default.as_str());
                s.append("`, but is not a valid value in choices array `");
                let listed = debug_format_strings(choices);
                s.append(listed.as_str());
                s.append("` for `");
                s.append(var_name.as_str());
                s.append("`");
            },
            ConversionError::InvalidVariableType { var_name, value } => {
                s.append("invalid type for variable `");
                s.append(var_name.as_str());
                s.append("`: `");
                s.append(value.as_str());
                s.append("` possible values are `bool`, `string`, `text` and `editor`");
            },
            ConversionError::UnsupportedChoices { var_type } => {
                s.append(var_type.as_str());
                s.append(" type does not support `choices` field");
            },
            ConversionError::RegexOnBool { .. } => {
                s.append("bool type does not support `regex` field");
            },
            ConversionError::MissingDefaultValueForPlaceholderVariable { var_name } => {
                s.append("variable `");
                s.append(var_name.as_str());
                s.append("` is missing default value in config file running in silent mode");
            },
            ConversionError::RegexDoesntMatchField { var_name, field } => {
                s.append("field `");
                s.append(field.as_str());
                s.append("` of variable `");
                s.append(var_name.as_str());
                s.append("` does not match configured regex");
            },
            ConversionError::InvalidRegex { var_name, error, .. } => {
                s.append("regex of `");
                s.append(var_name.as_str());
                s.append("` is not a valid regex. ");
                s.append(error.as_str());
            },
            ConversionError::InvalidPlaceholderName { var_name } => {
                s.append("placeholder `");
                s.append(var_name.as_str());
                s.append(
                    "` is not valid as you can't override `project-name`, `crate_name`, `crate_type`, `authors` and `os-arch`",
                );
            },
        }
        s
    }
}

/// The generator's own values cannot be redefined: a placeholder with a
/// reserved name is refused whatever its definition.
pub proof fn lemma_reserved_names_refused(key: Seq<char>, value: TomlValue)
    requires
        is_reserved(key),
    ensures
        slot_spec(key, value) == Err::<SlotView, ConversionErrorView>(
            ConversionErrorView::InvalidPlaceholderName { var_name: key },
        ),
{
}

/// A placeholder that passes the checks is consistent: a text default is
/// one of the choices when there are choices, and matches the regex when
/// there is one; every choice of the string kind matches the regex; a
/// list default holds only choices; and a regex is only ever kept for a
/// text kind.
pub proof fn lemma_accepted_slot_is_consistent(key: Seq<char>, value: TomlValue)
    requires
        slot_spec(key, value) is Ok,
    ensures
        match slot_spec(key, value)->Ok_0.var_info {
            VarInfoView::String { default, kind, regex } => {
                &&& (default is Some && kind is Choices) ==> in_values(
                    default->Some_0,
                    kind->Choices_0,
                )
                &&& (default is Some && regex is Some) ==> regex_matches(
                    regex->Some_0,
                    default->Some_0,
                )
                &&& (kind is Choices && regex is Some) ==> forall|i: int|
                    0 <= i < kind->Choices_0.len() ==> regex_matches(
                        regex->Some_0,
                        #[trigger] kind->Choices_0[i].value,
                    )
            },
            VarInfoView::Array { default, choices } => default is Some ==> forall|i: int|
                0 <= i < default->Some_0.len() ==> #[trigger] in_values(
                    default->Some_0[i],
                    choices,
                ),
            VarInfoView::Bool { .. } => true,
        },
{
    let t = match value {
        TomlValue::Table(t) => t,
        _ => {
            assert(false);
            arbitrary()
        },
    };
    let vt = type_spec(key, field_of(t@, "type"@))->Ok_0;
    let re = regex_spec(key, vt, field_of(t@, "regex"@))->Ok_0;
    let ce = field_of(t@, "choices"@);
    let cs = choices_spec(key, vt, re, ce)->Ok_0;
    let de = field_of(t@, "default"@);
    let d = default_spec(key, vt, re, de, cs)->Ok_0;
    if vt == SupportedVarType::String && cs is Some && re is Some {
        let arr = match ce {
            Some(TomlValue::Array(arr)) => arr,
            _ => {
                assert(false);
                arbitrary()
            },
        };
        assert forall|i: int| 0 <= i < cs->Some_0.len() implies regex_matches(
            re->Some_0,
            #[trigger] cs->Some_0[i].value,
        ) by {
            assert(choice_of(arr@[i]) is Some);
            assert(cs->Some_0[i] == choice_of(arr@[i])->Some_0);
        }
    }
}

} // verus!
