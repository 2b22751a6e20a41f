use cargo_generate::config::{Config, ConditionalConfig, TemplateConfig, TemplateSlotsTable, TomlValue};
use cargo_generate::fetch::{
    default_answer, liquid_target, locate_step, locate_template_file, nearest_existing, parent_dir,
    template_file_candidates,
    resolve_template_dir_subfolder, select_sub_template, silent_answer,
    sub_template_slot, subfolder_outcome, LocateStep, copies_directory, copy_entry_step, CopyStep,
};
use cargo_generate::generate::{given_answer, missing_provided_values, provided_text, ProvidedLiteral};
use cargo_generate::hooks::{
    command_gate, confirmation_prompt, denied_message, failed_status_message,
    failed_to_run_message, full_command, is_affirmative, script_report, silent_refusal,
    CommandGate, Environment, PoisonError, to_absolute_path, variable_set_check, ValueKind,
};
use cargo_generate::include_exclude::{both_lists_given, is_relative_path, Matcher, ShouldInclude};
use cargo_generate::project_variables::{
    Choice, ConversionError, Prompt, StringEntry, StringKind, TemplateSlots, VarInfo,
};
use cargo_generate::template::{
    entry_action, files_with_errors_warning, is_git_metadata, progress_prefix, EntryAction,
};
use cargo_generate::template_variable_types::ArrayToTemplateString;

fn strings(v: &[&str]) -> Vec<String> {
    v.iter().map(|s| s.to_string()).collect()
}

#[test]
fn exclude_list_leaves_matching_files_out() {
    let mut tc = TemplateConfig { exclude: Some(strings(&["*.bak", "docs/"])), ..TemplateConfig::default() };
    let m = Matcher::new(&mut tc, "/tpl", &strings(&["hook.rhai"])).unwrap();
    assert_eq!(m.should_include("src/main.rs"), ShouldInclude::Include);
    assert_eq!(m.should_include("notes.bak"), ShouldInclude::Exclude);
    assert_eq!(m.should_include("docs/index.md"), ShouldInclude::Exclude);
    assert_eq!(m.should_include("hook.rhai"), ShouldInclude::Ignore);
}

#[test]
fn include_list_takes_only_matching_files() {
    let mut tc = TemplateConfig {
        includes: Some(strings(&["*.rs"])),
        exclude: Some(strings(&["*.rs"])),
        ..TemplateConfig::default()
    };
    assert!(both_lists_given(&tc));
    let m = Matcher::new(&mut tc, "/tpl", &Vec::new()).unwrap();
    assert_eq!(tc.exclude, None);
    assert_eq!(m.should_include("src/main.rs"), ShouldInclude::Include);
    assert_eq!(m.should_include("README.md"), ShouldInclude::Exclude);
}

#[test]
fn no_lists_include_everything() {
    let mut tc = TemplateConfig::default();
    let m = Matcher::new(&mut tc, "/tpl", &Vec::new()).unwrap();
    assert_eq!(m.should_include("anything"), ShouldInclude::Include);
    assert_eq!(Matcher::default().should_include("x"), ShouldInclude::Include);
}

#[test]
fn invalid_glob_is_reported() {
    let mut tc = TemplateConfig { exclude: Some(strings(&["{a,b"])), ..TemplateConfig::default() };
    assert!(Matcher::new(&mut tc, "/tpl", &Vec::new()).is_err());
}

#[test]
fn command_gate_follows_flags() {
    assert_eq!(command_gate(true, true), CommandGate::Run);
    assert_eq!(command_gate(false, true), CommandGate::Refuse);
    assert_eq!(command_gate(false, false), CommandGate::Ask);
    assert!(silent_refusal().starts_with("Cannot prompt for system command confirmation"));
}

#[test]
fn command_texts() {
    assert_eq!(full_command("ls", &Vec::new()), "ls");
    assert_eq!(full_command("ls", &strings(&["-l", "a b"])), "ls -l a b");
    assert_eq!(
        confirmation_prompt("ls -l"),
        "The template is requesting to run the following command. Do you agree?\nls -l"
    );
    assert_eq!(denied_message("ls"), "User denied execution of system command `ls`.");
    assert_eq!(
        failed_status_message("ls", "exit status: 2", "boom"),
        "System command `ls` returned non-zero status: exit status: 2, stderr: boom"
    );
    assert_eq!(
        failed_to_run_message("ls", "not found"),
        "System command `ls` failed to execute: not found"
    );
    assert_eq!(
        script_report("a.rhai", ""),
        "Script `a.rhai` executed successfully with no output."
    );
    assert_eq!(
        script_report("a.rhai", "hi"),
        "Script `a.rhai` executed successfully and returned output: hi"
    );
}

#[test]
fn only_clear_yes_runs_a_command() {
    assert!(is_affirmative("yes"));
    assert!(is_affirmative("  Y\n"));
    assert!(is_affirmative("YeS"));
    assert!(!is_affirmative("no"));
    assert!(!is_affirmative("yess"));
    assert!(!is_affirmative(""));
    assert!(!is_affirmative("   "));
}

#[test]
fn hook_environment_and_poison() {
    let env = Environment {
        working_directory: "/w".into(),
        destination_directory: "/d".into(),
    };
    assert_eq!(env.working_directory, "/w");
    assert_eq!(env.destination_directory, "/d");
    assert_eq!(PoisonError.message(), "A lock was poisoned");
}

#[test]
fn liquid_suffix_is_stripped() {
    assert_eq!(liquid_target("a/README.md.liquid"), Some("a/README.md".to_string()));
    assert_eq!(liquid_target("a/README.md"), None);
    assert_eq!(liquid_target(".liquid"), Some(String::new()));
    assert_eq!(liquid_target("liquid"), None);
}

#[test]
fn subfolder_must_stay_inside_and_be_a_folder() {
    assert_eq!(
        subfolder_outcome("b", "s", Some("/b".into()), Some("/b/s".into()), true),
        Ok("/b/s".to_string())
    );
    assert_eq!(
        subfolder_outcome("b", "../x", Some("/b".into()), Some("/x".into()), true),
        Err("Subfolder Error: Invalid subfolder. Must be part of the template folder structure.".to_string())
    );
    assert_eq!(
        subfolder_outcome("b", "f", Some("/b".into()), Some("/b/f".into()), false),
        Err("Subfolder Error: The specified subfolder must be a valid folder.".to_string())
    );
    assert_eq!(
        subfolder_outcome("b", "s", Some("/b".into()), None, false),
        Err("not able to find subfolder 's' in source template".to_string())
    );
    assert_eq!(resolve_template_dir_subfolder("b", None), Ok("b".to_string()));
    assert!(resolve_template_dir_subfolder("src", Some("git")).unwrap().ends_with("/src/git"));
    assert!(resolve_template_dir_subfolder("src", Some("lib.rs")).is_err());
    assert!(resolve_template_dir_subfolder("src", Some("..")).is_err());
}

#[test]
fn locating_templates_by_their_configs() {
    assert!(matches!(locate_step("/b", &Vec::new()), LocateStep::Here));
    match locate_step("/b", &strings(&["one"])) {
        LocateStep::Single(d) => assert_eq!(d, "/b/one"),
        _ => panic!("expected a single config"),
    }
    match locate_step("/b", &strings(&["one", "two"])) {
        LocateStep::Ask(slot) => {
            assert_eq!(slot.prompt.raw, "Which template should be expanded?");
            assert_eq!(default_answer(&slot), Some("one".to_string()));
            match slot.var_info {
                VarInfo::String { entry } => match entry.kind {
                    StringKind::Choices(c) => assert_eq!(c.len(), 2),
                    _ => panic!("expected choices"),
                },
                _ => panic!("expected a text question"),
            }
        }
        _ => panic!("expected a question"),
    }
    let s = sub_template_slot(&strings(&["x", "y"]));
    assert_eq!(s.prompt.raw, "Which sub-template should be expanded?");
    assert_eq!(silent_answer(&s), Ok("x".to_string()));
}

#[test]
fn entries_of_the_template() {
    assert!(is_git_metadata("a/.git/config"));
    assert!(is_git_metadata(".git"));
    assert!(!is_git_metadata("a/.gitignore"));
    let mut tc = TemplateConfig { exclude: Some(strings(&["*.bak"])), ..TemplateConfig::default() };
    let m = Matcher::new(&mut tc, "/tpl", &strings(&["pre.rhai"])).unwrap();
    let filters = strings(&["filter.rhai"]);
    assert_eq!(entry_action("filter.rhai", &filters, &m), EntryAction::SkipRhaiFilter);
    assert_eq!(entry_action("a.rs", &filters, &m), EntryAction::Process);
    assert_eq!(entry_action("a.bak", &filters, &m), EntryAction::Skip);
    assert_eq!(entry_action("pre.rhai", &filters, &m), EntryAction::Ignore);
}

#[test]
fn progress_counter_is_aligned() {
    assert_eq!(progress_prefix(0, 12), "[ 1/12]");
    assert_eq!(progress_prefix(11, 12), "[12/12]");
    assert_eq!(progress_prefix(0, 1), "[1/1]");
}

#[test]
fn files_with_errors_are_listed() {
    let w = files_with_errors_warning(&strings(&["a", "b"]));
    assert!(w.starts_with("\nSubstitution skipped, found invalid syntax in\n\ta\n\tb\n\n"));
    assert!(w.ends_with("#include--exclude.\n\n"));
}

#[test]
fn arrays_render_as_quoted_lists() {
    assert_eq!(strings(&["a", "b"]).render_as_string(), "[\"a\", \"b\"]");
    assert_eq!(Vec::<String>::new().render_as_string(), "[]");
}

#[test]
fn given_values_as_text() {
    assert_eq!(provided_text(&TomlValue::Integer(-42)), Some("-42".to_string()));
    assert_eq!(provided_text(&TomlValue::Integer(i64::MIN)), Some(i64::MIN.to_string()));
    assert_eq!(provided_text(&TomlValue::Boolean(true)), Some("true".to_string()));
    assert_eq!(provided_text(&TomlValue::Array(Vec::new())), None);
    let values = vec![("name".to_string(), TomlValue::Integer(7))];
    assert_eq!(given_answer("name", &values, true), Ok(Some("7".to_string())));
    assert_eq!(given_answer("other", &values, false), Ok(None));
    assert_eq!(
        given_answer("other", &values, true),
        Err(ConversionError::MissingDefaultValueForPlaceholderVariable { var_name: "other".into() })
    );
}

#[test]
fn conditional_sections_merge_into_the_config() {
    let mut config = Config {
        template: Some(TemplateConfig { exclude: Some(strings(&["a"])), ..TemplateConfig::default() }),
        placeholders: Some(TemplateSlotsTable(vec![
            ("x".to_string(), TomlValue::Integer(1)),
            ("y".to_string(), TomlValue::Integer(2)),
        ])),
        ..Config::default()
    };
    let changed = config.merge_conditional(ConditionalConfig {
        includes: None,
        exclude: Some(strings(&["b"])),
        ignore: Some(strings(&["c"])),
        placeholders: Some(TemplateSlotsTable(vec![
            ("y".to_string(), TomlValue::Integer(20)),
            ("z".to_string(), TomlValue::Integer(3)),
        ])),
    });
    assert!(changed);
    let t = config.template.as_ref().unwrap();
    assert_eq!(t.exclude, Some(strings(&["a", "b"])));
    assert_eq!(t.ignore, Some(strings(&["c"])));
    assert_eq!(t.includes, None);
    let keys: Vec<String> = config.placeholders.as_ref().unwrap().0.iter().map(|(k, _)| k.clone()).collect();
    assert_eq!(keys, strings(&["x", "y", "z"]));
    assert!(matches!(config.placeholders.as_ref().unwrap().0[1].1, TomlValue::Integer(20)));
    let unchanged = config.merge_conditional(ConditionalConfig {
        includes: None,
        exclude: None,
        ignore: None,
        placeholders: None,
    });
    assert!(!unchanged);
}

#[test]
fn parent_dir_follows_path_parent() {
    assert_eq!(parent_dir("/a/b").as_deref(), Some("/a"));
    assert_eq!(parent_dir("/a").as_deref(), Some("/"));
    assert_eq!(parent_dir("/"), None);
    assert_eq!(parent_dir("a").as_deref(), Some(""));
    assert_eq!(parent_dir(""), None);
    assert_eq!(parent_dir("a/b/").as_deref(), Some("a"));
    assert_eq!(parent_dir("a//b").as_deref(), Some("a"));
}

#[test]
fn locate_template_file_searches_up_to_the_base() {
    assert_eq!(locate_template_file("mod.rs", "src", "src/git").unwrap(), "src/git/mod.rs");
    assert_eq!(locate_template_file("lib.rs", "src", "src/git").unwrap(), "src/lib.rs");
    assert_eq!(
        locate_template_file("no-such-file.toml", "src", "src/git").unwrap_err(),
        "File not found within template"
    );
    assert_eq!(
        locate_template_file("no-such-file.toml", "/no/such/base", "src/git").unwrap_err(),
        "Reached root folder"
    );
}

fn sub_template_choice_slot(default: Option<&str>) -> TemplateSlots {
    TemplateSlots {
        prompt: Prompt::new("Which sub-template should be expanded?".to_string(), None),
        var_name: "Template".into(),
        var_info: VarInfo::String {
            entry: Box::new(StringEntry {
                default: default.map(str::to_owned),
                kind: StringKind::Choices(vec![
                    Choice::new("sub1".to_string()),
                    Choice::new("sub2".to_string()),
                ]),
                regex: None,
            }),
        },
    }
}

#[test]
fn select_sub_template_uses_configured_default_in_silent_mode() {
    let slot = sub_template_choice_slot(Some("sub1"));
    let actual = select_sub_template(&slot, true, |_| unreachable!("silent mode should not prompt"));
    assert_eq!(Ok("sub1".to_string()), actual);
}

#[test]
fn select_sub_template_errors_without_default_in_silent_mode() {
    let slot = sub_template_choice_slot(None);
    let message = select_sub_template(&slot, true, |_| Ok("sub2".into())).unwrap_err();
    assert!(message.contains("Option `--silent` provided"));
    assert!(message.contains("`Template` has no default value"));
}

#[test]
fn select_sub_template_prompts_outside_silent_mode() {
    let slot = sub_template_choice_slot(Some("sub1"));
    let actual = select_sub_template(&slot, false, |slots| {
        assert_eq!("Template", slots.var_name);
        Ok("sub2".into())
    });
    assert_eq!(Ok("sub2".to_string()), actual);
}

#[test]
fn provided_values_without_placeholder_are_added() {
    let known = strings(&["project-name", "flag"]);
    let values = vec![
        ("flag".to_string(), TomlValue::Integer(3)),
        ("license".to_string(), TomlValue::String("MIT".to_string())),
        ("ci".to_string(), TomlValue::Boolean(true)),
        ("license".to_string(), TomlValue::Integer(1)),
    ];
    let added = missing_provided_values(&known, &values).unwrap();
    assert_eq!(
        added,
        vec![
            ("license".to_string(), ProvidedLiteral::Text("MIT".to_string())),
            ("ci".to_string(), ProvidedLiteral::Flag(true)),
        ]
    );
}

#[test]
fn provided_values_of_other_types_are_refused() {
    let values = vec![("n".to_string(), TomlValue::Integer(3))];
    assert_eq!(
        missing_provided_values(&Vec::new(), &values).unwrap_err(),
        "Unsupported value type. Only Strings and Booleans are supported."
    );
    assert_eq!(missing_provided_values(&strings(&["n"]), &values).unwrap(), Vec::new());
}

#[test]
fn hook_scripts_keep_the_kind_of_a_variable() {
    assert_eq!(variable_set_check("a", ValueKind::Absent, ValueKind::Flag), Ok(()));
    assert_eq!(variable_set_check("a", ValueKind::Text, ValueKind::Text), Ok(()));
    assert_eq!(
        variable_set_check("a", ValueKind::Flag, ValueKind::Text),
        Err("Variable a not a String".to_string())
    );
    assert_eq!(
        variable_set_check("b", ValueKind::Text, ValueKind::Flag),
        Err("Variable b not a bool".to_string())
    );
    assert_eq!(
        variable_set_check("c", ValueKind::Flag, ValueKind::List),
        Err("Variable c not an array".to_string())
    );
}

#[test]
fn moving_the_template_decides_entry_by_entry() {
    assert_eq!(copy_entry_step(true, false, true, false), CopyStep::Descend);
    assert_eq!(copy_entry_step(false, true, false, false), CopyStep::Copy);
    assert_eq!(copy_entry_step(false, true, true, true), CopyStep::Overwrite);
    assert_eq!(copy_entry_step(false, true, true, false), CopyStep::RefuseExisting);
    assert_eq!(copy_entry_step(false, false, false, true), CopyStep::RefuseLink);
    assert!(!copies_directory(".git"));
    assert!(copies_directory("src"));
}

#[test]
fn matcher_paths_must_be_plain_relative() {
    assert!(is_relative_path("src/main.rs"));
    assert!(is_relative_path("./src/main.rs"));
    assert!(!is_relative_path("/etc/x"));
    assert!(!is_relative_path(".//etc/x"));
    assert!(!is_relative_path("a//b"));
}

#[test]
fn hook_paths_stay_in_the_template() {
    assert_eq!(to_absolute_path("/tpl", "a/../b").unwrap(), "/tpl/b");
    assert_eq!(to_absolute_path("/tpl", "./c").unwrap(), "/tpl/c");
    assert_eq!(
        to_absolute_path("/tpl", "../x").unwrap_err(),
        "Path must be inside template dir: ../x"
    );
}

#[test]
fn the_nearest_existing_candidate_wins() {
    let (c, reaches) = template_file_candidates("f.toml", "/b", "/b/x/y");
    assert_eq!(c, strings(&["/b/x/y/f.toml", "/b/x/f.toml", "/b/f.toml"]));
    assert!(reaches);
    assert_eq!(nearest_existing(&c, &vec![false, true, true], reaches), Ok("/b/x/f.toml".to_string()));
    assert_eq!(
        nearest_existing(&c, &vec![false, false, false], reaches),
        Err("File not found within template".to_string())
    );
    let (c, reaches) = template_file_candidates("f.toml", "/other", "/b");
    assert_eq!(c, strings(&["/b/f.toml", "/f.toml"]));
    assert!(!reaches);
    assert_eq!(nearest_existing(&c, &vec![false, false], reaches), Err("Reached root folder".to_string()));
}
