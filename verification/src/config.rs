//! The template configuration (`cargo-generate.toml`) as plain values.
use vstd::prelude::*;
use crate::args::Vcs;
use crate::project_variables::{find_key, key_index, lemma_key_index};

verus! {

/// The name of the configuration file of a template and of the
/// application.
pub const CONFIG_FILE_NAME: &'static str = "cargo-generate.toml";

/// A TOML value, as read from a configuration file. A float is kept as
/// the text it prints as.
#[derive(Debug)]
pub enum TomlValue {
    String(String),
    Integer(i64),
    Float(String),
    Boolean(bool),
    Datetime(String),
    Array(Vec<TomlValue>),
    Table(Vec<(String, TomlValue)>),
}

/// The hook scripts a template runs.
#[derive(Debug, Clone, PartialEq, Eq, Default)]
pub struct HooksConfig {
    pub init: Option<Vec<String>>,
    pub pre: Option<Vec<String>>,
    pub post: Option<Vec<String>>,
}

/// The `[template]` section.
#[derive(Debug, Clone, PartialEq, Eq, Default)]
pub struct TemplateConfig {
    pub sub_templates: Option<Vec<String>>,
    /// The version requirement on cargo-generate, as written.
    pub cargo_generate_version: Option<String>,
    pub includes: Option<Vec<String>>,
    pub exclude: Option<Vec<String>>,
    pub ignore: Option<Vec<String>>,
    pub vcs: Option<Vcs>,
    pub init: Option<bool>,
}

/// The placeholders table: names and their definitions, in file order.
#[derive(Debug, Default)]
pub struct TemplateSlotsTable(pub Vec<(String, TomlValue)>);

/// A section that applies when its condition holds.
#[derive(Debug)]
pub struct ConditionalConfig {
    pub includes: Option<Vec<String>>,
    pub exclude: Option<Vec<String>>,
    pub ignore: Option<Vec<String>>,
    pub placeholders: Option<TemplateSlotsTable>,
}

/// A template configuration.
#[derive(Debug, Default)]
pub struct Config {
    pub template: Option<TemplateConfig>,
    pub placeholders: Option<TemplateSlotsTable>,
    pub hooks: Option<HooksConfig>,
    /// Condition expressions and their sections, in file order.
    pub conditional: Option<Vec<(String, ConditionalConfig)>>,
}

/// The scripts of one kind of hook: none when the section or the list is
/// missing.
pub open spec fn hook_list(hooks: Option<HooksConfig>, pick: spec_fn(HooksConfig) -> Option<Vec<String>>) -> Seq<String> {
    match hooks {
        Some(h) => match pick(h) {
            Some(v) => v@,
            None => Seq::empty(),
        },
        None => Seq::empty(),
    }
}

pub open spec fn init_hooks(c: Config) -> Seq<String> {
    hook_list(c.hooks, |h: HooksConfig| h.init)
}

pub open spec fn pre_hooks(c: Config) -> Seq<String> {
    hook_list(c.hooks, |h: HooksConfig| h.pre)
}

pub open spec fn post_hooks(c: Config) -> Seq<String> {
    hook_list(c.hooks, |h: HooksConfig| h.post)
}

fn clone_strings(v: &Vec<String>) -> (r: Vec<String>)
    ensures
        r@ == v@,
{
    let mut r: Vec<String> = Vec::new();
    let mut i: usize = 0;
    while i < v.len()
        invariant
            i <= v.len(),
            r@ == v@.subrange(0, i as int),
        decreases v.len() - i,
    {
        r.push(v[i].clone());
        i = i + 1;
        assert(r@ =~= v@.subrange(0, i as int));
    }
    assert(v@.subrange(0, v@.len() as int) =~= v@);
    r
}

fn list_or_empty(v: &Option<Vec<String>>) -> (r: Vec<String>)
    ensures
        r@ == (match v {
            Some(x) => x@,
            None => Seq::empty(),
        }),
{
    match v {
        Some(x) => clone_strings(x),
        None => Vec::new(),
    }
}

impl Config {
    pub fn get_init_hooks(&self) -> (r: Vec<String>)
        ensures
            r@ == init_hooks(*self),
    {
        match &self.hooks {
            Some(h) => list_or_empty(&h.init),
            None => Vec::new(),
        }
    }

    pub fn get_pre_hooks(&self) -> (r: Vec<String>)
        ensures
            r@ == pre_hooks(*self),
    {
        match &self.hooks {
            Some(h) => list_or_empty(&h.pre),
            None => Vec::new(),
        }
    }

    pub fn get_post_hooks(&self) -> (r: Vec<String>)
        ensures
            r@ == post_hooks(*self),
    {
        match &self.hooks {
            Some(h) => list_or_empty(&h.post),
            None => Vec::new(),
        }
    }

    /// All hook scripts: init, then pre, then post.
    pub fn get_hook_files(&self) -> (r: Vec<String>)
        ensures
            r@ == init_hooks(*self) + pre_hooks(*self) + post_hooks(*self),
    {
        let mut all = self.get_init_hooks();
        let mut pre = self.get_pre_hooks();
        let mut post = self.get_post_hooks();
        all.append(&mut pre);
        all.append(&mut post);
        all
    }
}

/// The table after inserting `v` under `k`: an existing entry keeps its
/// place and takes the new value, a new one goes last.
pub open spec fn table_insert(t: Seq<(String, TomlValue)>, k: String, v: TomlValue) -> Seq<
    (String, TomlValue),
> {
    match key_index(t, k@) {
        Some(i) => t.update(i, (t[i].0, v)),
        None => t.push((k, v)),
    }
}

/// The table after inserting each entry of `extra`, in order.
pub open spec fn table_insert_all(t: Seq<(String, TomlValue)>, extra: Seq<(String, TomlValue)>) -> Seq<
    (String, TomlValue),
>
    decreases extra.len(),
{
    if extra.len() == 0 {
        t
    } else {
        table_insert(table_insert_all(t, extra.drop_last()), extra.last().0, extra.last().1)
    }
}

/// A list after `extra` is appended to it; a missing list counts as empty
/// when there is something to append.
pub open spec fn appended(list: Option<Vec<String>>, extra: Option<Vec<String>>) -> Option<
    Seq<String>,
> {
    match extra {
        Some(e) => Some(
            match list {
                Some(l) => l@ + e@,
                None => e@,
            },
        ),
        None => match list {
            Some(l) => Some(l@),
            None => None,
        },
    }
}

pub open spec fn opt_seq(o: Option<Vec<String>>) -> Option<Seq<String>> {
    match o {
        Some(v) => Some(v@),
        None => None,
    }
}

/// The `[template]` section, or an empty one.
pub open spec fn template_or_default(t: Option<TemplateConfig>) -> TemplateConfig {
    match t {
        Some(t) => t,
        None => TemplateConfig {
            sub_templates: None,
            cargo_generate_version: None,
            includes: None,
            exclude: None,
            ignore: None,
            vcs: None,
            init: None,
        },
    }
}

fn append_list(list: &mut Option<Vec<String>>, extra: Option<Vec<String>>)
    ensures
        opt_seq(*final(list)) == appended(*old(list), extra),
{
    match extra {
        Some(mut e) => match list {
            Some(l) => l.append(&mut e),
            None => {
                *list = Some(e);
            },
        },
        None => {},
    }
}

/// Inserts `(k, v)` into a table.
fn insert_entry(t: &mut Vec<(String, TomlValue)>, k: String, v: TomlValue)
    ensures
        final(t)@ == table_insert(old(t)@, k, v),
{
    let ghost old_t = t@;
    proof {
        lemma_key_index(old_t, k@);
    }
    match find_key(t, k.as_str()) {
        Some(i) => {
            let key = t[i].0.clone();
            assert(key == old_t[i as int].0);
            t.set(i, (key, v));
            assert(t@ == old_t.update(i as int, (old_t[i as int].0, v)));
        },
        None => {
            t.push((k, v));
            assert(t@ == old_t.push((k, v)));
        },
    }
}

fn insert_all(t: &mut Vec<(String, TomlValue)>, extra: Vec<(String, TomlValue)>)
    ensures
        final(t)@ == table_insert_all(old(t)@, extra@),
{
    let ghost start = t@;
    let ghost ex = extra@;
    assert(ex.len() == extra.len());
    let mut rest = extra;
    let mut taken: usize = 0;
    assert(ex.subrange(0, 0) =~= Seq::<(String, TomlValue)>::empty());
    assert(ex.subrange(0, ex.len() as int) =~= ex);
    while rest.len() > 0
        invariant
            taken + rest.len() == ex.len(),
            ex.len() <= usize::MAX,
            rest@ == ex.subrange(taken as int, ex.len() as int),
            t@ == table_insert_all(start, ex.subrange(0, taken as int)),
        decreases rest.len(),
    {
        let (k, v) = rest.remove(0);
        proof {
            let pre = ex.subrange(0, taken as int);
            let post = ex.subrange(0, taken + 1);
            assert(post.drop_last() =~= pre);
            assert(post.last() == ex[taken as int]);
        }
        insert_entry(t, k, v);
        taken = taken + 1;
        assert(rest@ =~= ex.subrange(taken as int, ex.len() as int));
    }
    assert(ex.subrange(0, ex.len() as int) =~= ex);
}

impl Config {
    /// Merges a conditional section whose condition holds into the
    /// configuration: its include, exclude and ignore lists are appended
    /// to those of the `[template]` section (created when missing), and
    /// its placeholders are inserted into the placeholders. Answers
    /// whether there were placeholders to insert, which calls for asking
    /// again.
    pub fn merge_conditional(&mut self, cond: ConditionalConfig) -> (r: bool)
        ensures
            final(self).template is Some,
            ({
                let t0 = template_or_default(old(self).template);
                let t1 = final(self).template->Some_0;
                &&& opt_seq(t1.includes) == appended(t0.includes, cond.includes)
                &&& opt_seq(t1.exclude) == appended(t0.exclude, cond.exclude)
                &&& opt_seq(t1.ignore) == appended(t0.ignore, cond.ignore)
                &&& t1.sub_templates == t0.sub_templates
                &&& t1.cargo_generate_version == t0.cargo_generate_version
                &&& t1.vcs == t0.vcs
                &&& t1.init == t0.init
            }),
            final(self).hooks == old(self).hooks,
            r == cond.placeholders is Some,
            match cond.placeholders {
                Some(p) => final(self).placeholders is Some && final(self).placeholders->Some_0.0@
                    == (match old(self).placeholders {
                    Some(t) => table_insert_all(t.0@, p.0@),
                    None => p.0@,
                }),
                None => final(self).placeholders == old(self).placeholders,
            },
    {
        let mut t = match self.template.take() {
            Some(t) => t,
            None => TemplateConfig {
                sub_templates: None,
                cargo_generate_version: None,
                includes: None,
                exclude: None,
                ignore: None,
                vcs: None,
                init: None,
            },
        };
        let ConditionalConfig { includes, exclude, ignore, placeholders } = cond;
        append_list(&mut t.includes, includes);
        append_list(&mut t.exclude, exclude);
        append_list(&mut t.ignore, ignore);
        self.template = Some(t);
        match placeholders {
            Some(extra) => {
                match self.placeholders.take() {
                    Some(mut existing) => {
                        insert_all(&mut existing.0, extra.0);
                        self.placeholders = Some(existing);
                    },
                    None => {
                        self.placeholders = Some(extra);
                    },
                }
                true
            },
            None => false,
        }
    }
}

} // verus!
