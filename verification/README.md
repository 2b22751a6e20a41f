# cargo-generate, verified core

The library under `src/` holds the decisions of `cargo generate`, stated as
`requires`/`ensures` contracts and proved with Verus:

- `template_source`, `args`, `app_config`: what a template argument names
  (a local folder, a git URL, an abbreviation such as `gh:owner/repo`, a
  favorite) and where it is fetched from.
- `git`: remote URL checks, `insteadOf` rewrites, proxy settings, clone
  options and submodule URLs.
- `config`, `project_variables`, `interactive`: the template's
  configuration, its placeholders turned into questions, and the checks
  of the answers.
- `include_exclude`, `template`, `ignore_me`, `fetch`: which files are
  rendered, copied, ignored or removed, and where the template lives
  inside what was fetched.
- `absolute_path`, `hooks`: paths made absolute and kept inside the
  template for hook scripts, and what a hook may run.
- `generate`, `projectname`, `authors`, `favorites`: names and places of
  the generated project, the version check, and listings.

Outside crates (`regex`, `ignore`, `semver`, `heck`, `home`,
`path-absolutize`) are called
through small trusted wrappers whose contracts name what they return.

`app/` is the command-line program: argument parsing with clap, reading
TOML with serde, rendering with liquid, hook scripts with rhai, git and
terminal I/O. `tests/` exercises the library from outside.
