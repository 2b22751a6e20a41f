//! The user's application configuration: defaults and favorite templates.
use vstd::prelude::*;
use crate::args::Vcs;
use crate::config::TomlValue;
use crate::text::{chars_of, owned, str_eq};
use crate::absolute_path::join_path;
use crate::disk::{canonicalize_existing, is_absolute_text, path_exists};

verus! {

/// A favorite template, as configured by the user.
#[derive(Debug, Default)]
pub struct FavoriteConfig {
    pub description: Option<String>,
    pub git: Option<String>,
    pub branch: Option<String>,
    pub tag: Option<String>,
    pub subfolder: Option<String>,
    pub path: Option<String>,
    pub values: Option<Vec<(String, TomlValue)>>,
    pub vcs: Option<Vcs>,
}

/// Defaults for command-line arguments.
#[derive(Debug, Default)]
pub struct DefaultsConfig {
    /// relates to the `ssh_identity` argument
    pub ssh_identity: Option<String>,
}

/// The application configuration. Favorites are kept in file order; their
/// names are distinct.
#[derive(Debug, Default)]
pub struct AppConfig {
    pub defaults: Option<DefaultsConfig>,
    pub favorites: Option<Vec<(String, FavoriteConfig)>>,
    pub values: Option<Vec<(String, TomlValue)>>,
}

/// The first favorite named `name` among `favs`.
pub open spec fn lookup_favorite(favs: Seq<(String, FavoriteConfig)>, name: Seq<char>) -> Option<FavoriteConfig>
    decreases favs.len(),
{
    if favs.len() == 0 {
        None
    } else if favs[0].0@ == name {
        Some(favs[0].1)
    } else {
        lookup_favorite(favs.drop_first(), name)
    }
}

/// The favorite named `name` in the configuration, if any.
pub open spec fn favorite_of(cfg: AppConfig, name: Seq<char>) -> Option<FavoriteConfig> {
    match cfg.favorites {
        Some(v) => lookup_favorite(v@, name),
        None => None,
    }
}

impl AppConfig {
    /// The favorite configured under `favorite_name`.
    pub fn get_favorite_cfg(&self, favorite_name: &str) -> (r: Option<&FavoriteConfig>)
        ensures
            match r {
                Some(f) => favorite_of(*self, favorite_name@) == Some(*f),
                None => favorite_of(*self, favorite_name@) is None,
            },
    {
        match &self.favorites {
            None => None,
            Some(favs) => {
                let mut i: usize = 0;
                assert(favs@.subrange(0, favs@.len() as int) =~= favs@);
                while i < favs.len()
                    invariant
                        i <= favs.len(),
                        self.favorites == Some(*favs),
                        lookup_favorite(favs@, favorite_name@) == lookup_favorite(
                            favs@.subrange(i as int, favs@.len() as int),
                            favorite_name@,
                        ),
                    decreases favs.len() - i,
                {
                    let ghost rest = favs@.subrange(i as int, favs@.len() as int);
                    assert(rest.drop_first() =~= favs@.subrange(i + 1, favs@.len() as int));
                    assert(rest[0] == favs@[i as int]);
                    let entry = &favs[i];
                    if str_eq(entry.0.as_str(), favorite_name) {
                        assert(rest.len() > 0 && rest[0].0@ == favorite_name@);
                        assert(lookup_favorite(rest, favorite_name@) == Some(entry.1));
                        return Some(&entry.1);
                    }
                    i = i + 1;
                }
                None
            }
        }
    }
}

/// The base name of the configuration file.
pub open spec fn config_file_name() -> Seq<char> {
    "cargo-generate.toml"@
}

/// The message when no configuration path can be found.
pub open spec fn no_config_path_message() -> Seq<char> {
    "\nUnable to resolve path for configuration file.\nUse --config option, or place cargo-generate.toml in $CARGO_HOME."@
}

/// The message when an explicitly given configuration file does not exist.
pub open spec fn missing_config_message() -> Seq<char> {
    "The given configuration file does not exist."@
}

/// Where the configuration is looked for under the cargo home directory:
/// the file with the `.toml` extension when it exists, else the one
/// without when that exists, else the one with.
pub open spec fn preferred_config_path(home: Seq<char>, preferred_exists: bool, plain_exists: bool) -> Seq<char> {
    let preferred = crate::absolute_path::join_path_spec(home, config_file_name());
    if preferred_exists {
        preferred
    } else if plain_exists {
        crate::absolute_path::join_path_spec(home, "cargo-generate"@)
    } else {
        preferred
    }
}

/// Under the cargo home directory the configuration is
/// `cargo-generate.toml`, unless that file is missing and a file
/// `cargo-generate` without extension is there: only then is the latter
/// used. An existing `cargo-generate.toml` always wins.
pub proof fn lemma_toml_config_preferred(home: Seq<char>, preferred_exists: bool, plain_exists: bool)
    ensures
        preferred_exists ==> preferred_config_path(home, preferred_exists, plain_exists)
            == crate::absolute_path::join_path_spec(home, "cargo-generate.toml"@),
        (preferred_config_path(home, preferred_exists, plain_exists)
            == crate::absolute_path::join_path_spec(home, "cargo-generate.toml"@))
            || (preferred_config_path(home, preferred_exists, plain_exists)
            == crate::absolute_path::join_path_spec(home, "cargo-generate"@)),
        !preferred_exists && plain_exists ==> preferred_config_path(home, preferred_exists, plain_exists)
            == crate::absolute_path::join_path_spec(home, "cargo-generate"@),
        !preferred_exists && !plain_exists ==> preferred_config_path(home, preferred_exists, plain_exists)
            == crate::absolute_path::join_path_spec(home, "cargo-generate.toml"@),
{
}

/// Chooses the configuration file under `cargo_home`, given whether the
/// preferred file and the file without extension exist.
pub fn choose_config_under_home(cargo_home: &str, preferred_exists: bool, plain_exists: bool) -> (r: String)
    ensures
        r@ == preferred_config_path(cargo_home@, preferred_exists, plain_exists),
{
    if preferred_exists || !plain_exists {
        join_path(cargo_home, "cargo-generate.toml")
    } else {
        join_path(cargo_home, "cargo-generate")
    }
}

/// The path of the application configuration: the explicitly given file,
/// resolved on disk, or the file under the cargo home directory
/// `cargo_home`. A missing cargo home is an error. An explicit file that
/// cannot be resolved is an error too: the generator panics there, and
/// since whether a file resolves is a state of the disk, which no
/// `requires` can leave out, this error stands in for that panic.
pub fn app_config_path(path: &Option<String>, cargo_home: &Option<String>) -> (r: Result<String, String>)
    ensures
        path is Some ==> (r matches Ok(s) ==> s@.len() > 0 && is_absolute_text(s@)),
        path is Some ==> (r matches Err(e) ==> e@ == missing_config_message()),
        path is None && cargo_home is None ==> r is Err && r->Err_0@ == no_config_path_message(),
        path is None && cargo_home is Some ==> r is Ok && (exists|a: bool, b: bool| r->Ok_0@ == preferred_config_path(cargo_home->Some_0@, a, b)),
{
    match path {
        Some(p) => match canonicalize_existing(p.as_str()) {
            Some(c) => Ok(c),
            None => Err(owned("The given configuration file does not exist.")),
        },
        None => match cargo_home {
            None => Err(owned("\nUnable to resolve path for configuration file.\nUse --config option, or place cargo-generate.toml in $CARGO_HOME.")),
            Some(home) => {
                let preferred = join_path(home.as_str(), "cargo-generate.toml");
                let preferred_exists = path_exists(preferred.as_str());
                let plain = join_path(home.as_str(), "cargo-generate");
                let plain_exists = path_exists(plain.as_str());
                let r = choose_config_under_home(home.as_str(), preferred_exists, plain_exists);
                Ok(r)
            }
        },
    }
}

} // verus!
