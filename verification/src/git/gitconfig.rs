//! The settings of the user's git configuration that cloning honors.
use vstd::prelude::*;
use crate::absolute_path::join_path;
use crate::disk::path_exists;
use crate::text::{has_prefix, owned, replace_all, replace_all_exec, str_has_prefix};
use crate::absolute_path::join_path_spec;
use crate::interactive::{eq_ignore_ascii_case, eq_ignore_case};
use crate::project_variables::opt_text;
use super::utils::{home, no_home_message};

verus! {

/// Effective proxy settings from a git configuration: `http.proxy` and
/// `http.noProxy`. An absent key is `None`; an empty value is kept as an
/// empty string.
#[derive(Debug, Default, PartialEq, Eq)]
pub struct HttpProxyConfig {
    pub proxy: Option<String>,
    pub no_proxy: Option<String>,
}

/// One `[url "<base>"]` section of a git configuration: remotes starting
/// with `instead_of` are rewritten to start with `base`.
#[derive(Debug, Clone, PartialEq, Eq)]
pub struct InsteadOfRule {
    pub base: Option<String>,
    pub instead_of: Option<String>,
}

/// A rule that rewrites `remote`.
pub open spec fn rule_applies(rule: InsteadOfRule, remote: Seq<char>) -> bool {
    rule.base is Some && rule.instead_of is Some && has_prefix(remote, rule.instead_of->Some_0@)
}

/// The rewrite of `remote` by the first applicable rule among `rules`,
/// which replaces every occurrence of the rule's `instead_of` by its base.
pub open spec fn instead_url_of(remote: Seq<char>, rules: Seq<InsteadOfRule>) -> Option<Seq<char>>
    decreases rules.len(),
{
    if rules.len() == 0 {
        None
    } else if rule_applies(rules[0], remote) {
        Some(replace_all(remote, rules[0].instead_of->Some_0@, rules[0].base->Some_0@))
    } else {
        instead_url_of(remote, rules.drop_first())
    }
}

/// Rewrites `remote` by the `[url] insteadOf` sections of a git
/// configuration, given in file order.
pub fn resolve_instead_url(remote: &str, rules: &Vec<InsteadOfRule>) -> (r: Option<String>)
    ensures
        match r {
            Some(u) => instead_url_of(remote@, rules@) == Some(u@),
            None => instead_url_of(remote@, rules@) is None,
        },
{
    let mut i: usize = 0;
    assert(rules@.subrange(0, rules@.len() as int) =~= rules@);
    while i < rules.len()
        invariant
            i <= rules.len(),
            instead_url_of(remote@, rules@) == instead_url_of(
                remote@,
                rules@.subrange(i as int, rules@.len() as int),
            ),
        decreases rules.len() - i,
    {
        let ghost rest = rules@.subrange(i as int, rules@.len() as int);
        assert(rest.drop_first() =~= rules@.subrange(i + 1, rules@.len() as int));
        let rule = &rules[i];
        assert(rest[0] == *rule);
        if let (Some(base), Some(old)) = (&rule.base, &rule.instead_of) {
            if str_has_prefix(remote, old.as_str()) {
                return Some(replace_all_exec(remote, old.as_str(), base.as_str()));
            }
        }
        i = i + 1;
    }
    None
}

/// The user's `.gitconfig` in the home directory, when it exists.
pub fn find_gitconfig() -> (r: Result<Option<String>, String>)
    ensures
        r matches Err(e) ==> e@ == no_home_message(),
        r matches Ok(Some(p)) ==> exists|h: Seq<char>| p@ == join_path_spec(h, ".gitconfig"@),
{
    let h = home()?;
    let gitconfig = join_path(h.as_str(), ".gitconfig");
    assert(gitconfig@ == join_path_spec(h@, ".gitconfig"@));
    if path_exists(gitconfig.as_str()) {
        return Ok(Some(gitconfig));
    }
    Ok(None)
}

/// One setting of a git configuration file, as `git config --list` shows
/// it: the dotted name of the key (`http.proxy`) and its value.
#[derive(Debug, Clone, PartialEq, Eq)]
pub struct ConfigEntry {
    pub name: String,
    pub value: String,
}

/// The value of the key `key` (written in lower case) among `entries`:
/// git's rule is that the last setting wins, and section and key names
/// are compared without regard to case.
pub open spec fn config_value(entries: Seq<ConfigEntry>, key: Seq<char>) -> Option<Seq<char>>
    decreases entries.len(),
{
    if entries.len() == 0 {
        None
    } else if eq_ignore_ascii_case(entries.last().name@, key) {
        Some(entries.last().value@)
    } else {
        config_value(entries.drop_last(), key)
    }
}

/// The value of the key `key` (written in lower case) among `entries`.
pub fn config_string(entries: &Vec<ConfigEntry>, key: &str) -> (r: Option<String>)
    ensures
        opt_text(r) == config_value(entries@, key@),
{
    let mut i = entries.len();
    assert(entries@.subrange(0, entries@.len() as int) =~= entries@);
    while i > 0
        invariant
            i <= entries.len(),
            config_value(entries@, key@) == config_value(entries@.subrange(0, i as int), key@),
        decreases i,
    {
        let ghost prefix = entries@.subrange(0, i as int);
        assert(prefix.drop_last() =~= entries@.subrange(0, i - 1));
        let entry = &entries[i - 1];
        if eq_ignore_case(entry.name.as_str(), key) {
            return Some(owned(entry.value.as_str()));
        }
        i = i - 1;
    }
    None
}

/// `http.proxy` and `http.noProxy` of a git configuration file, from its
/// settings in file order.
pub fn resolve_http_proxy(entries: &Vec<ConfigEntry>) -> (r: HttpProxyConfig)
    ensures
        opt_text(r.proxy) == config_value(entries@, "http.proxy"@),
        opt_text(r.no_proxy) == config_value(entries@, "http.noproxy"@),
{
    HttpProxyConfig {
        proxy: config_string(entries, "http.proxy"),
        no_proxy: config_string(entries, "http.noproxy"),
    }
}

} // verus!
