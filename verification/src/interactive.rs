//! What the answers to the placeholders' questions must look like: the
//! checks of values given in advance, and the parsing of list answers.
use vstd::prelude::*;
use crate::project_variables::{
    choices_view, in_values, values_of, Choice, ChoiceView, StringKind, TemplateSlots, VarInfo,
};
use crate::pattern::regex_matches;
use crate::text::{join_strings, join_with, owned, push_char, str_eq, texts};

verus! {

/// The separator of the items of a list value.
pub const LIST_SEP: &'static str = ",";

/// The separator used when a list is shown.
pub const LIST_SEP_PRETTY: &'static str = ", ";

/// `s` cut at every `c`, as `str::split` does: `n` separators give
/// `n + 1` pieces, empty ones included.
pub open spec fn split_on(s: Seq<char>, c: char) -> Seq<Seq<char>>
    decreases s.len(),
{
    if s.len() == 0 {
        seq![Seq::<char>::empty()]
    } else {
        let prev = split_on(s.drop_last(), c);
        if s.last() == c {
            prev.push(Seq::<char>::empty())
        } else {
            prev.update(prev.len() - 1, prev.last().push(s.last()))
        }
    }
}

/// Splitting always gives at least one piece.
pub proof fn lemma_split_on_nonempty(s: Seq<char>, c: char)
    ensures
        split_on(s, c).len() >= 1,
    decreases s.len(),
{
    if s.len() > 0 {
        lemma_split_on_nonempty(s.drop_last(), c);
    }
}

/// The non-empty pieces, in order.
pub open spec fn nonempty_parts(ps: Seq<Seq<char>>) -> Seq<Seq<char>>
    decreases ps.len(),
{
    if ps.len() == 0 {
        Seq::empty()
    } else {
        let r = nonempty_parts(ps.drop_last());
        if ps.last().len() > 0 {
            r.push(ps.last())
        } else {
            r
        }
    }
}

/// The items of a list answer: the non-empty pieces between the commas.
pub open spec fn parse_list_spec(s: Seq<char>) -> Seq<Seq<char>> {
    nonempty_parts(split_on(s, ','))
}

/// Cuts `s` at every `c`, keeping empty pieces.
pub fn split_text(s: &str, sep: char) -> (r: Vec<String>)
    ensures
        texts(r@) == split_on(s@, sep),
{
    let n = s.unicode_len();
    let mut parts: Vec<String> = Vec::new();
    let mut cur = String::new();
    let mut i: usize = 0;
    while i < n
        invariant
            n == s@.len(),
            i <= n,
            texts(parts@).push(cur@) == split_on(s@.subrange(0, i as int), sep),
        decreases n - i,
    {
        let c = s.get_char(i);
        let ghost before = s@.subrange(0, i as int);
        let ghost after = s@.subrange(0, i + 1);
        assert(after.drop_last() =~= before);
        assert(after.last() == c);
        proof {
            lemma_split_on_nonempty(before, sep);
        }
        if c == sep {
            let done = cur;
            parts.push(done);
            cur = String::new();
            assert(texts(parts@).push(cur@) =~= split_on(after, sep));
        } else {
            push_char(&mut cur, c);
            assert(texts(parts@).push(cur@) =~= split_on(after, sep));
        }
        i = i + 1;
    }
    assert(s@.subrange(0, n as int) =~= s@);
    parts.push(cur);
    assert(texts(parts@) =~= split_on(s@, sep));
    parts
}

/// Cuts `s` at every `,`, keeping empty pieces.
pub fn split_list(s: &str) -> (r: Vec<String>)
    ensures
        texts(r@) == split_on(s@, ','),
{
    split_text(s, ',')
}

/// Reads the items of a list answer, dropping empty ones.
pub fn parse_list(provided_value: &str) -> (r: Vec<String>)
    ensures
        texts(r@) == parse_list_spec(provided_value@),
{
    let parts = split_list(provided_value);
    let mut r: Vec<String> = Vec::new();
    let mut i: usize = 0;
    while i < parts.len()
        invariant
            i <= parts.len(),
            texts(r@) == nonempty_parts(texts(parts@).subrange(0, i as int)),
        decreases parts.len() - i,
    {
        let ghost pre = texts(parts@).subrange(0, i as int);
        let ghost post = texts(parts@).subrange(0, i + 1);
        assert(post.drop_last() =~= pre);
        if parts[i].unicode_len() > 0 {
            r.push(parts[i].clone());
            assert(texts(r@) =~= nonempty_parts(post));
        }
        i = i + 1;
    }
    assert(texts(parts@).subrange(0, i as int) =~= texts(parts@));
    r
}

/// The items of `list` that are (`inside`) or are not (`!inside`) among
/// `choices`, in order.
pub open spec fn keep_if(list: Seq<Seq<char>>, choices: Seq<Seq<char>>, inside: bool) -> Seq<
    Seq<char>,
>
    decreases list.len(),
{
    if list.len() == 0 {
        Seq::empty()
    } else {
        let r = keep_if(list.drop_last(), choices, inside);
        if choices.contains(list.last()) == inside {
            r.push(list.last())
        } else {
            r
        }
    }
}

/// What a list answer gives: the selected items when all are among the
/// choices, else the items that are not.
pub open spec fn selections_spec(provided: Seq<char>, choices: Seq<Seq<char>>) -> Result<
    Seq<Seq<char>>,
    Seq<Seq<char>>,
> {
    let list = parse_list_spec(provided);
    let bad = keep_if(list, choices, false);
    if bad.len() == 0 {
        Ok(keep_if(list, choices, true))
    } else {
        Err(bad)
    }
}

/// Splitting a list by membership loses and adds nothing: the two parts
/// together are as long as the list, the first holds only items among
/// `choices`, the second only items that are not, and every item of
/// either part is an item of the list.
pub proof fn lemma_selection_partition(list: Seq<Seq<char>>, choices: Seq<Seq<char>>)
    ensures
        keep_if(list, choices, true).len() + keep_if(list, choices, false).len() == list.len(),
        forall|i: int|
            0 <= i < keep_if(list, choices, true).len() ==> choices.contains(
                #[trigger] keep_if(list, choices, true)[i],
            ) && list.contains(keep_if(list, choices, true)[i]),
        forall|i: int|
            0 <= i < keep_if(list, choices, false).len() ==> !choices.contains(
                #[trigger] keep_if(list, choices, false)[i],
            ) && list.contains(keep_if(list, choices, false)[i]),
    decreases list.len(),
{
    if list.len() > 0 {
        let pre = list.drop_last();
        lemma_selection_partition(pre, choices);
        let t = keep_if(list, choices, true);
        let f = keep_if(list, choices, false);
        assert forall|i: int| 0 <= i < t.len() implies choices.contains(#[trigger] t[i])
            && list.contains(t[i]) by {
            if i < keep_if(pre, choices, true).len() {
                assert(pre.contains(keep_if(pre, choices, true)[i]));
                let k = choose|k: int| 0 <= k < pre.len() && pre[k] == keep_if(pre, choices, true)[i];
                assert(list[k] == pre[k]);
            } else {
                assert(list[list.len() - 1] == list.last());
            }
        }
        assert forall|i: int| 0 <= i < f.len() implies !choices.contains(#[trigger] f[i])
            && list.contains(f[i]) by {
            if i < keep_if(pre, choices, false).len() {
                assert(pre.contains(keep_if(pre, choices, false)[i]));
                let k = choose|k: int| 0 <= k < pre.len() && pre[k] == keep_if(pre, choices, false)[i];
                assert(list[k] == pre[k]);
            } else {
                assert(list[list.len() - 1] == list.last());
            }
        }
    }
}

/// Whether `v` is among `items`.
fn contains_text(items: &Vec<String>, v: &String) -> (r: bool)
    ensures
        r == texts(items@).contains(v@),
{
    let mut i: usize = 0;
    while i < items.len()
        invariant
            i <= items.len(),
            forall|j: int| 0 <= j < i ==> items@[j]@ != v@,
        decreases items.len() - i,
    {
        if str_eq(items[i].as_str(), v.as_str()) {
            assert(texts(items@)[i as int] == v@);
            return true;
        }
        i = i + 1;
    }
    assert forall|j: int| 0 <= j < texts(items@).len() implies texts(items@)[j] != v@ by {
        assert(texts(items@)[j] == items@[j]@);
    }
    false
}

/// Checks a list answer against the choices: the selected items when all
/// are among them, else the items that are not.
pub fn check_provided_selections(provided_value: &str, choices: &Vec<String>) -> (r: Result<
    Vec<String>,
    Vec<String>,
>)
    ensures
        match selections_spec(provided_value@, texts(choices@)) {
            Ok(v) => r is Ok && texts(r->Ok_0@) == v,
            Err(v) => r is Err && texts(r->Err_0@) == v,
        },
{
    let list = parse_list(provided_value);
    let ghost l = texts(list@);
    let ghost cs = texts(choices@);
    let mut ok: Vec<String> = Vec::new();
    let mut bad: Vec<String> = Vec::new();
    let mut i: usize = 0;
    while i < list.len()
        invariant
            i <= list.len(),
            l == texts(list@),
            cs == texts(choices@),
            texts(ok@) == keep_if(l.subrange(0, i as int), cs, true),
            texts(bad@) == keep_if(l.subrange(0, i as int), cs, false),
        decreases list.len() - i,
    {
        let ghost pre = l.subrange(0, i as int);
        let ghost post = l.subrange(0, i + 1);
        assert(post.drop_last() =~= pre);
        assert(post.last() == list@[i as int]@);
        if contains_text(choices, &list[i]) {
            ok.push(list[i].clone());
            assert(texts(ok@) =~= keep_if(post, cs, true));
        } else {
            bad.push(list[i].clone());
            assert(texts(bad@) =~= keep_if(post, cs, false));
        }
        i = i + 1;
    }
    assert(l.subrange(0, i as int) =~= l);
    if bad.len() == 0 {
        Ok(ok)
    } else {
        Err(bad)
    }
}

/// `s` is the lower-case ASCII word `w` up to the case of its letters.
pub open spec fn eq_ignore_ascii_case(s: Seq<char>, w: Seq<char>) -> bool {
    s.len() == w.len() && forall|i: int|
        0 <= i < s.len() ==> (s[i] == w[i] || ('a' <= w[i] && w[i] <= 'z' && (s[i] as u32) == (
        w[i] as u32) - 32))
}

/// Whether `s` spells the lower-case ASCII word `w` in any case of its
/// letters.
pub fn eq_ignore_case(s: &str, w: &str) -> (r: bool)
    ensures
        r == eq_ignore_ascii_case(s@, w@),
{
    let n = s.unicode_len();
    if n != w.unicode_len() {
        return false;
    }
    let mut i: usize = 0;
    while i < n
        invariant
            n == s@.len(),
            n == w@.len(),
            i <= n,
            forall|j: int|
                0 <= j < i ==> (s@[j] == w@[j] || ('a' <= w@[j] && w@[j] <= 'z' && (s@[j] as u32)
                    == (w@[j] as u32) - 32)),
        decreases n - i,
    {
        let a = s.get_char(i);
        let b = w.get_char(i);
        if !(a == b || ('a' <= b && b <= 'z' && (a as u32) + 32 == (b as u32))) {
            return false;
        }
        i = i + 1;
    }
    true
}

/// The truth value a yes/no answer spells, in any case of its letters.
/// (Lower-casing, as the generator does before parsing, turns no other
/// character into a letter of `true` or `false`.)
pub open spec fn bool_answer(s: Seq<char>) -> Option<bool> {
    if eq_ignore_ascii_case(s, "true"@) {
        Some(true)
    } else if eq_ignore_ascii_case(s, "false"@) {
        Some(false)
    } else {
        None
    }
}

/// Reads a yes/no answer.
pub fn parse_bool_answer(value: &str) -> (r: Option<bool>)
    ensures
        r == bool_answer(value@),
{
    if eq_ignore_case(value, "true") {
        Some(true)
    } else if eq_ignore_case(value, "false") {
        Some(false)
    } else {
        None
    }
}

/// Why a value given in advance for a placeholder was refused.
#[derive(Debug, Clone, PartialEq)]
pub enum ProvidedValueError {
    /// A yes/no placeholder got something else than `true` or `false`.
    NotABool,
    /// The value (for a list, the items that are not among the choices,
    /// joined by commas; `several` when there is more than one) does not
    /// fit the placeholder.
    Invalid { var_name: String, value: String, several: bool },
}

/// A refusal as text.
pub enum ProvidedValueErrorView {
    NotABool,
    Invalid { var_name: Seq<char>, value: Seq<char>, several: bool },
}

impl View for ProvidedValueError {
    type V = ProvidedValueErrorView;

    open spec fn view(&self) -> ProvidedValueErrorView {
        match self {
            ProvidedValueError::NotABool => ProvidedValueErrorView::NotABool,
            ProvidedValueError::Invalid { var_name, value, several } =>
                ProvidedValueErrorView::Invalid {
                var_name: var_name@,
                value: value@,
                several: *several,
            },
        }
    }
}

/// The text of a refusal.
pub open spec fn provided_error_message(e: ProvidedValueErrorView) -> Seq<char> {
    match e {
        ProvidedValueErrorView::NotABool => "provided string was not `true` or `false`"@,
        ProvidedValueErrorView::Invalid { var_name, value, several } => "Sorry, \""@ + value
            + (if several {
            "\" are not valid values for "@
        } else {
            "\" is not a valid value for "@
        }) + var_name,
    }
}

impl ProvidedValueError {
    /// The text of the refusal.
    pub fn message(&self) -> (r: String)
        ensures
            r@ == provided_error_message(self@),
    {
        let mut s = String::new();
        match self {
            ProvidedValueError::NotABool => s.append("provided string was not `true` or `false`"),
            ProvidedValueError::Invalid { var_name, value, several } => {
                s.append("Sorry, \"");
                s.append(value.as_str());
                if *several {
                    s.append("\" are not valid values for ");
                } else {
                    s.append("\" is not a valid value for ");
                }
                s.append(var_name.as_str());
            },
        }
        s
    }
}

/// What a value given in advance for the placeholder `slot` gives: a
/// yes/no answer is normalised to `true` or `false`; a text must be one
/// of the choices or match the regex; a list must hold only choices, and
/// is given back with its empty items dropped.
pub open spec fn provided_spec(slot: TemplateSlots, value: Seq<char>) -> Result<
    Seq<char>,
    ProvidedValueErrorView,
> {
    let invalid = |v: Seq<char>, several: bool|
        Err(ProvidedValueErrorView::Invalid { var_name: slot.var_name@, value: v, several });
    match slot.var_info {
        VarInfo::Bool { .. } => match bool_answer(value) {
            Some(true) => Ok("true"@),
            Some(false) => Ok("false"@),
            None => Err(ProvidedValueErrorView::NotABool),
        },
        VarInfo::String { entry } => match entry.kind {
            StringKind::Choices(cs) => if in_values(value, choices_view(cs@)) {
                Ok(value)
            } else {
                invalid(value, false)
            },
            _ => match entry.regex {
                Some(re) => if regex_matches(re@, value) {
                    Ok(value)
                } else {
                    invalid(value, false)
                },
                None => Ok(value),
            },
        },
        VarInfo::Array { entry } => match selections_spec(
            value,
            values_of(choices_view(entry.choices@)),
        ) {
            Ok(v) => Ok(join_with(v, ","@)),
            Err(v) => invalid(join_with(v, ","@), v.len() > 1),
        },
    }
}

/// A yes/no answer given in advance is the word `true` or `false` in any
/// case of its letters, and it comes back as that word in lower case:
/// `False` gives `false`, `TRUE` gives `true`; anything else is refused
/// as not a boolean.
pub proof fn lemma_provided_bool_answer(slot: TemplateSlots, value: Seq<char>)
    requires
        slot.var_info is Bool,
    ensures
        provided_spec(slot, value) matches Ok(t) ==> (t == "true"@ || t == "false"@)
            && eq_ignore_ascii_case(value, t),
        eq_ignore_ascii_case(value, "true"@) ==> provided_spec(slot, value) == Ok::<
            Seq<char>,
            ProvidedValueErrorView,
        >("true"@),
        eq_ignore_ascii_case(value, "false"@) ==> provided_spec(slot, value) == Ok::<
            Seq<char>,
            ProvidedValueErrorView,
        >("false"@),
        !eq_ignore_ascii_case(value, "true"@) && !eq_ignore_ascii_case(value, "false"@)
            ==> provided_spec(slot, value) == Err::<Seq<char>, ProvidedValueErrorView>(
            ProvidedValueErrorView::NotABool,
        ),
{
    reveal_strlit("true");
    reveal_strlit("false");
    if eq_ignore_ascii_case(value, "true"@) {
        assert(!eq_ignore_ascii_case(value, "false"@));
    }
}

/// Checks a value given in advance for the placeholder `slot`.
pub fn check_provided_value(slot: &TemplateSlots, value: String) -> (r: Result<
    String,
    ProvidedValueError,
>)
    ensures
        match provided_spec(*slot, value@) {
            Ok(v) => r is Ok && r->Ok_0@ == v,
            Err(e) => r is Err && r->Err_0@ == e,
        },
{
    match &slot.var_info {
        VarInfo::Bool { .. } => match parse_bool_answer(value.as_str()) {
            Some(true) => Ok(owned("true")),
            Some(false) => Ok(owned("false")),
            None => Err(ProvidedValueError::NotABool),
        },
        VarInfo::String { entry } => {
            let fits = match &entry.kind {
                StringKind::Choices(cs) => has_value(cs, value.as_str()),
                _ => match &entry.regex {
                    Some(re) => re.is_match(value.as_str()),
                    None => true,
                },
            };
            if fits {
                Ok(value)
            } else {
                Err(
                    ProvidedValueError::Invalid {
                        var_name: slot.var_name.clone(),
                        value,
                        several: false,
                    },
                )
            }
        },
        VarInfo::Array { entry } => {
            let values = crate::project_variables::choice_values(&entry.choices);
            match check_provided_selections(value.as_str(), &values) {
                Ok(sel) => Ok(join_strings(&sel, LIST_SEP)),
                Err(bad) => Err(
                    ProvidedValueError::Invalid {
                        var_name: slot.var_name.clone(),
                        value: join_strings(&bad, LIST_SEP),
                        several: bad.len() > 1,
                    },
                ),
            }
        },
    }
}

/// Whether some choice has the value `v`.
fn has_value(cs: &Vec<Choice>, v: &str) -> (r: bool)
    ensures
        r == in_values(v@, choices_view(cs@)),
{
    let mut i: usize = 0;
    while i < cs.len()
        invariant
            i <= cs.len(),
            forall|j: int| 0 <= j < i ==> cs@[j].value@ != v@,
        decreases cs.len() - i,
    {
        if str_eq(cs[i].value.as_str(), v) {
            assert(choices_view(cs@)[i as int].value == v@);
            return true;
        }
        i = i + 1;
    }
    assert forall|j: int| 0 <= j < cs@.len() implies #[trigger] choices_view(cs@)[j].value != v@ by {
        assert(choices_view(cs@)[j] == cs@[j]@);
    }
    false
}

/// The choice selected at first: the default when it is one of the
/// choices, else the first choice.
pub open spec fn initial_choice_spec(default: Option<Seq<char>>, choices: Seq<ChoiceView>) -> Seq<
    char,
> {
    match default {
        Some(d) => if in_values(d, choices) {
            d
        } else {
            choices[0].value
        },
        None => choices[0].value,
    }
}

/// The choice to select at first.
pub fn initial_choice(default: &Option<String>, choices: &Vec<Choice>) -> (r: String)
    requires
        choices.len() > 0,
    ensures
        r@ == initial_choice_spec(
            match default {
                Some(d) => Some(d@),
                None => None,
            },
            choices_view(choices@),
        ),
{
    match default {
        Some(d) => if has_value(choices, d.as_str()) {
            d.clone()
        } else {
            choices[0].value.clone()
        },
        None => choices[0].value.clone(),
    }
}

/// The defaults that are among the choices, in order; the items selected
/// at first in a list question.
pub fn initial_selections(defaults: &Vec<String>, choices: &Vec<Choice>) -> (r: Vec<String>)
    ensures
        texts(r@) == keep_if(texts(defaults@), values_of(choices_view(choices@)), true),
{
    let values = crate::project_variables::choice_values(choices);
    let ghost cs = texts(values@);
    let ghost l = texts(defaults@);
    let mut r: Vec<String> = Vec::new();
    let mut i: usize = 0;
    while i < defaults.len()
        invariant
            i <= defaults.len(),
            cs == values_of(choices_view(choices@)),
            cs == texts(values@),
            l == texts(defaults@),
            texts(r@) == keep_if(l.subrange(0, i as int), cs, true),
        decreases defaults.len() - i,
    {
        let ghost pre = l.subrange(0, i as int);
        let ghost post = l.subrange(0, i + 1);
        assert(post.drop_last() =~= pre);
        assert(post.last() == defaults@[i as int]@);
        if contains_text(&values, &defaults[i]) {
            r.push(defaults[i].clone());
            assert(texts(r@) =~= keep_if(post, cs, true));
        }
        i = i + 1;
    }
    assert(l.subrange(0, i as int) =~= l);
    r
}

/// The items of a list answer handed to the template: none for an empty
/// answer, else the pieces between the commas.
pub open spec fn answer_items_spec(answer: Seq<char>) -> Seq<Seq<char>> {
    if answer.len() == 0 {
        Seq::empty()
    } else {
        split_on(answer, ',')
    }
}

/// Cuts a list answer into the items handed to the template.
pub fn answer_items(answer: &str) -> (r: Vec<String>)
    ensures
        texts(r@) == answer_items_spec(answer@),
{
    if answer.unicode_len() == 0 {
        let r: Vec<String> = Vec::new();
        assert(texts(r@) =~= Seq::<Seq<char>>::empty());
        r
    } else {
        split_list(answer)
    }
}

/// The part of `s` before its first `c`, or all of `s`.
pub open spec fn before_first(s: Seq<char>, c: char) -> Seq<char> {
    match crate::text::first_index_from(s, c, 0) {
        Some(i) => s.subrange(0, i),
        None => s,
    }
}

/// The question asked again after an editor answer that the regex
/// refused: the question up to its first `:`, then the complaint.
pub open spec fn editor_retry_spec(with_default: Seq<char>, answer: Seq<char>, var_name: Seq<
    char,
>) -> Seq<char> {
    before_first(with_default, ':') + ": \""@ + answer + "\" is not a valid value for `"@
        + var_name + "`"@
}

/// The question to ask again after a refused editor answer.
pub fn editor_retry_prompt(with_default: &str, answer: &str, var_name: &str) -> (r: String)
    ensures
        r@ == editor_retry_spec(with_default@, answer@, var_name@),
{
    let v = crate::text::chars_of(with_default);
    proof {
        crate::text::lemma_first_index_from(v@, ':', 0);
    }
    let end = match crate::text::find_char_from(&v, ':', 0) {
        Some(i) => i,
        None => v.len(),
    };
    assert(end == v.len() ==> v@.subrange(0, end as int) =~= v@);
    let mut r = crate::text::string_of_range(&v, 0, end);
    r.append(": \"");
    r.append(answer);
    r.append("\" is not a valid value for `");
    r.append(var_name);
    r.append("`");
    r
}

pub proof fn lemma_split_single(s: Seq<char>, c: char)
    requires
        !s.contains(c),
    ensures
        split_on(s, c) == seq![s],
    decreases s.len(),
{
    if s.len() > 0 {
        assert(!s.drop_last().contains(c)) by {
            if s.drop_last().contains(c) {
                let k = choose|k: int| 0 <= k < s.drop_last().len() && s.drop_last()[k] == c;
                assert(s[k] == c);
            }
        }
        lemma_split_single(s.drop_last(), c);
        assert(s.last() != c) by {
            assert(s[s.len() - 1] == s.last());
        }
        assert(s.drop_last().push(s.last()) =~= s);
        assert(seq![s.drop_last()].update(0, s.drop_last().push(s.last())) =~= seq![s]);
    } else {
        assert(s =~= Seq::<char>::empty());
    }
}

pub proof fn lemma_split_append(x: Seq<char>, y: Seq<char>, c: char)
    ensures
        split_on(x + seq![c] + y, c) == split_on(x, c) + split_on(y, c),
    decreases y.len(),
{
    lemma_split_on_nonempty(x, c);
    lemma_split_on_nonempty(y, c);
    if y.len() == 0 {
        assert(x + seq![c] + y =~= x.push(c));
        assert((x + seq![c] + y).drop_last() =~= x);
        assert(split_on(y, c) =~= seq![Seq::<char>::empty()]);
        assert(split_on(x, c).push(Seq::<char>::empty()) =~= split_on(x, c) + split_on(y, c));
    } else {
        let y0 = y.drop_last();
        lemma_split_append(x, y0, c);
        lemma_split_on_nonempty(y0, c);
        assert((x + seq![c] + y).drop_last() =~= x + seq![c] + y0);
        assert((x + seq![c] + y).last() == y.last());
        let a = split_on(x, c);
        let b = split_on(y0, c);
        if y.last() == c {
            assert((a + b).push(Seq::<char>::empty()) =~= a + b.push(Seq::<char>::empty()));
        } else {
            assert((a + b).last() == b.last());
            assert((a + b).update((a + b).len() - 1, b.last().push(y.last())) =~= a + b.update(
                b.len() - 1,
                b.last().push(y.last()),
            ));
        }
    }
}

/// Joining items with commas and cutting the result at the commas gives
/// the items back, when no item holds a comma.
pub proof fn lemma_split_join(items: Seq<Seq<char>>)
    requires
        items.len() > 0,
        forall|i: int| 0 <= i < items.len() ==> !(#[trigger] items[i]).contains(','),
    ensures
        split_on(join_with(items, ","@), ',') == items,
    decreases items.len(),
{
    reveal_strlit(",");
    if items.len() == 1 {
        lemma_split_single(items[0], ',');
        assert(seq![items[0]] =~= items);
    } else {
        let pre = items.drop_last();
        lemma_split_join(pre);
        lemma_split_single(items.last(), ',');
        assert(join_with(items, ","@) == join_with(pre, ","@) + seq![','] + items.last());
        lemma_split_append(join_with(pre, ","@), items.last(), ',');
        assert(pre + seq![items.last()] =~= items);
    }
}

/// A list answer survives the round trip through text: the items a list
/// question accepts, joined with commas as the answer, are cut back into
/// the same items when handed to the template, provided they are
/// non-empty and hold no comma, as the items of a parsed list are.
pub proof fn lemma_list_answer_round_trip(items: Seq<Seq<char>>)
    requires
        forall|i: int|
            0 <= i < items.len() ==> (#[trigger] items[i]).len() > 0 && !items[i].contains(','),
    ensures
        answer_items_spec(join_with(items, ","@)) == items,
{
    if items.len() == 0 {
        assert(join_with(items, ","@) =~= Seq::<char>::empty());
    } else {
        lemma_split_join(items);
        assert(join_with(items, ","@).len() > 0) by {
            lemma_join_len(items);
        }
    }
}

proof fn lemma_join_len(items: Seq<Seq<char>>)
    requires
        items.len() > 0,
        items.last().len() > 0,
    ensures
        join_with(items, ","@).len() > 0,
{
}

} // verus!
