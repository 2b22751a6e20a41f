//! The arguments that select a template and shape the generated project.
use vstd::prelude::*;
use crate::text::{chars_of, owned, vec_eq};

verus! {

/// The version control system to initialize the generated project with.
#[derive(Debug, Clone, Copy, PartialEq, Eq, Structural)]
pub enum Vcs {
    NoVcs,
    Git,
}

/// The upper-case form of a string, as `str::to_uppercase` computes it.
pub uninterp spec fn upper_case_of(s: Seq<char>) -> Seq<char>;

/// `str::to_uppercase`: the contract claims the result is the named
/// upper-case form of the input, a function of the input alone.
#[verifier::external_body]
fn to_upper(s: &str) -> (r: String)
    ensures
        r@ == upper_case_of(s@),
{
    s.to_uppercase()
}

/// The message of a rejected VCS name.
pub open spec fn vcs_error_message() -> Seq<char> {
    "Must be one of 'git' or 'none'"@
}

impl Vcs {
    /// Reads a VCS name, case-insensitively: `none` or `git`.
    pub fn parse_name(s: &str) -> (r: Result<Vcs, String>)
        ensures
            upper_case_of(s@) == "NONE"@ ==> r == Ok::<Vcs, String>(Vcs::NoVcs),
            upper_case_of(s@) == "GIT"@ ==> r == Ok::<Vcs, String>(Vcs::Git),
            upper_case_of(s@) != "NONE"@ && upper_case_of(s@) != "GIT"@ ==> r is Err && r->Err_0@
                == vcs_error_message(),
    {
        proof {
            reveal_strlit("NONE");
            reveal_strlit("GIT");
            assert("NONE"@.len() != "GIT"@.len());
        }
        let up = to_upper(s);
        let v = chars_of(up.as_str());
        let none = chars_of("NONE");
        let git = chars_of("GIT");
        if vec_eq(&v, &none) {
            Ok(Vcs::NoVcs)
        } else if vec_eq(&v, &git) {
            Ok(Vcs::Git)
        } else {
            Err(owned("Must be one of 'git' or 'none'"))
        }
    }

    /// Whether no version control is wanted.
    pub fn is_none(&self) -> (r: bool)
        ensures
            r == (*self == Vcs::NoVcs),
    {
        match self {
            Vcs::NoVcs => true,
            Vcs::Git => false,
        }
    }
}

/// The version control the project gets: the template's choice, else
/// the one asked for on the command line, else git.
pub open spec fn chosen_vcs_spec(template: Option<Vcs>, arg: Option<Vcs>) -> Vcs {
    match template {
        Some(v) => v,
        None => match arg {
            Some(v) => v,
            None => Vcs::Git,
        },
    }
}

/// Picks the version control for the generated project.
pub fn chosen_vcs(template: Option<Vcs>, arg: Option<Vcs>) -> (r: Vcs)
    ensures
        r == chosen_vcs_spec(template, arg),
{
    match template {
        Some(v) => v,
        None => match arg {
            Some(v) => v,
            None => Vcs::Git,
        },
    }
}

impl std::str::FromStr for Vcs {
    type Err = String;

    fn from_str(s: &str) -> (r: Result<Self, Self::Err>)
        ensures
            upper_case_of(s@) == "NONE"@ ==> r == Ok::<Vcs, String>(Vcs::NoVcs),
            upper_case_of(s@) == "GIT"@ ==> r == Ok::<Vcs, String>(Vcs::Git),
            upper_case_of(s@) != "NONE"@ && upper_case_of(s@) != "GIT"@ ==> r is Err && r->Err_0@
                == vcs_error_message(),
    {
        Vcs::parse_name(s)
    }
}

/// Where the template comes from, as given on the command line.
#[derive(Debug, Clone, Default)]
pub struct TemplatePath {
    /// Used as `git` or `favorite`; when one of those is given explicitly,
    /// it names the subfolder.
    pub auto_path: Option<String>,
    /// The subfolder within the template repository that is the template.
    pub subfolder: Option<String>,
    /// Expand the current directory as a template and run its tests.
    pub test: bool,
    /// Git repository to clone the template from.
    pub git: Option<String>,
    /// Branch to use when installing from git.
    pub branch: Option<String>,
    /// Tag to use when installing from git.
    pub tag: Option<String>,
    /// Git revision to use when installing from git.
    pub revision: Option<String>,
    /// Local path to copy the template from.
    pub path: Option<String>,
    /// A favorite template defined in the configuration.
    pub favorite: Option<String>,
}

/// The first of the given template sources: git, then path, then favorite,
/// then the positional one.
pub open spec fn any_path_of(t: TemplatePath) -> Option<String> {
    if t.git is Some {
        t.git
    } else if t.path is Some {
        t.path
    } else if t.favorite is Some {
        t.favorite
    } else {
        t.auto_path
    }
}

/// `r` borrows the value of `o`, or both are empty.
pub open spec fn same_option<T>(r: Option<&T>, o: Option<T>) -> bool {
    match r {
        Some(x) => o == Some(*x),
        None => o is None,
    }
}

impl TemplatePath {
    /// The template source that was given; at least one must be.
    pub fn any_path(&self) -> (r: &str)
        requires
            any_path_of(*self) is Some,
        ensures
            r@ == any_path_of(*self)->Some_0@,
    {
        if let Some(g) = &self.git {
            g.as_str()
        } else if let Some(p) = &self.path {
            p.as_str()
        } else if let Some(f) = &self.favorite {
            f.as_str()
        } else {
            self.auto_path.as_ref().unwrap().as_str()
        }
    }

    pub fn git(&self) -> (r: Option<&String>)
        ensures
            same_option(r, self.git),
    {
        self.git.as_ref()
    }

    pub fn branch(&self) -> (r: Option<&String>)
        ensures
            same_option(r, self.branch),
    {
        self.branch.as_ref()
    }

    pub fn tag(&self) -> (r: Option<&String>)
        ensures
            same_option(r, self.tag),
    {
        self.tag.as_ref()
    }

    pub fn revision(&self) -> (r: Option<&String>)
        ensures
            same_option(r, self.revision),
    {
        self.revision.as_ref()
    }

    pub fn path(&self) -> (r: Option<&String>)
        ensures
            same_option(r, self.path),
    {
        self.path.as_ref()
    }

    pub fn favorite(&self) -> (r: Option<&String>)
        ensures
            same_option(r, self.favorite),
    {
        self.favorite.as_ref()
    }

    pub fn auto_path(&self) -> (r: Option<&String>)
        ensures
            same_option(r, self.auto_path),
    {
        self.auto_path.as_ref()
    }

    /// The subfolder: the positional path when git, path or favorite is
    /// given explicitly, the subfolder argument otherwise.
    pub fn subfolder(&self) -> (r: Option<&String>)
        ensures
            same_option(
                r,
                if self.git is Some || self.path is Some || self.favorite is Some {
                    self.auto_path
                } else {
                    self.subfolder
                },
            ),
    {
        if self.git.is_some() || self.path.is_some() || self.favorite.is_some() {
            self.auto_path.as_ref()
        } else {
            self.subfolder.as_ref()
        }
    }
}

/// The arguments of `cargo generate`.
#[derive(Debug, Clone)]
pub struct GenerateArgs {
    pub template_path: TemplatePath,
    /// List defined favorite templates from the config.
    pub list_favorites: bool,
    /// Directory to create / project name.
    pub name: Option<String>,
    /// Don't convert the project name to kebab-case.
    pub force: bool,
    /// Enables more verbose output.
    pub verbose: bool,
    /// Pass template values through a file.
    pub template_values_file: Option<String>,
    /// Take every value from the values file, never prompt.
    pub silent: bool,
    /// Use a specific configuration file.
    pub config: Option<String>,
    /// The VCS used to initialize the generated project.
    pub vcs: Option<Vcs>,
    /// Populates template variable `crate_type` with value `"lib"`.
    pub lib: bool,
    /// Populates template variable `crate_type` with value `"bin"`.
    pub bin: bool,
    /// Use a different ssh identity.
    pub ssh_identity: Option<String>,
    /// Use a different gitconfig file.
    pub gitconfig: Option<String>,
    /// Values for use during template expansion, `key=value`.
    pub define: Vec<String>,
    /// Generate the template directly into the current dir.
    pub init: bool,
    /// Generate the template directly at the given path.
    pub destination: Option<String>,
    /// Enforce a fresh git init on the generated project.
    pub force_git_init: bool,
    /// Allow running system commands without being prompted.
    pub allow_commands: bool,
    /// Allow the template to overwrite existing files in the destination.
    pub overwrite: bool,
    /// Skip downloading git submodules.
    pub skip_submodules: bool,
    /// All args after "--" on the command line.
    pub other_args: Option<Vec<String>>,
}

impl Default for GenerateArgs {
    fn default() -> (r: Self)
        ensures
            r.template_path.auto_path is None && r.template_path.subfolder is None
                && !r.template_path.test && r.template_path.git is None
                && r.template_path.branch is None && r.template_path.tag is None
                && r.template_path.revision is None && r.template_path.path is None
                && r.template_path.favorite is None,
            !r.list_favorites && r.name is None && !r.force && !r.verbose,
            r.template_values_file is None && !r.silent && r.config is None && r.vcs is None,
            r.lib && !r.bin && r.ssh_identity is None && r.gitconfig is None,
            r.define@.len() == 0 && !r.init && r.destination is None,
            !r.force_git_init && !r.allow_commands && !r.overwrite && !r.skip_submodules,
            r.other_args is None,
    {
        GenerateArgs {
            template_path: TemplatePath {
                auto_path: None,
                subfolder: None,
                test: false,
                git: None,
                branch: None,
                tag: None,
                revision: None,
                path: None,
                favorite: None,
            },
            list_favorites: false,
            name: None,
            force: false,
            verbose: false,
            template_values_file: None,
            silent: false,
            config: None,
            vcs: None,
            lib: true,
            bin: false,
            ssh_identity: None,
            gitconfig: None,
            define: Vec::new(),
            init: false,
            destination: None,
            force_git_init: false,
            allow_commands: false,
            overwrite: false,
            skip_submodules: false,
            other_args: None,
        }
    }
}

} // verus!
