use cargo_generate::args::{chosen_vcs, Vcs};
use cargo_generate::config::{Config, TemplateConfig};
use cargo_generate::generate::{
    check_cargo_generate_version, renames_project, resolve_project_dir, resolve_project_name,
};
use cargo_generate::projectname::ProjectName;

#[test]
fn project_name_cases() {
    let n = ProjectName::new("My Project");
    assert_eq!(n.user_input, "My Project");
    assert_eq!(n.kebab_case(), "my-project");
    assert_eq!(n.snake_case(), "my_project");
    assert!(!n.is_crate_name());
    assert!(ProjectName::new("my-project").is_crate_name());
}

#[test]
fn rename_warning_only_when_kebab_case_differs() {
    assert!(renames_project(&ProjectName::new("MyProject"), false));
    assert!(!renames_project(&ProjectName::new("MyProject"), true));
    assert!(!renames_project(&ProjectName::new("my-project"), false));
}

#[test]
fn project_name_is_required_in_silent_mode() {
    assert_eq!(
        resolve_project_name(&Some("x".into()), true).unwrap().unwrap().user_input,
        "x"
    );
    assert!(resolve_project_name(&None, false).unwrap().is_none());
    assert_eq!(
        resolve_project_name(&None, true).err().unwrap(),
        "Project Name Error: Option `--silent` provided, but project name was not set. Please use `--name`."
    );
}

#[test]
fn project_dir_is_named_after_the_project() {
    let n = ProjectName::new("My Project");
    assert_eq!(
        resolve_project_dir(&n, &Some("/definitely/not/here".into()), "/cwd", false, false),
        Ok("/definitely/not/here/my-project".to_string())
    );
    assert_eq!(
        resolve_project_dir(&n, &None, "/definitely/not/here", false, true),
        Ok("/definitely/not/here/My Project".to_string())
    );
    assert_eq!(
        resolve_project_dir(&n, &None, "/cwd", true, false),
        Ok("/cwd".to_string())
    );
    assert_eq!(
        resolve_project_dir(&ProjectName::new("src"), &None, ".", false, true),
        Err("Target directory already exists, aborting!".to_string())
    );
}

fn config_requiring(req: &str) -> Config {
    Config {
        template: Some(TemplateConfig {
            cargo_generate_version: Some(req.to_string()),
            ..TemplateConfig::default()
        }),
        ..Config::default()
    }
}

#[test]
fn version_requirement_is_checked() {
    assert_eq!(check_cargo_generate_version(&Config::default(), "0.1.0"), Ok(()));
    assert_eq!(check_cargo_generate_version(&config_requiring(">=0.1"), "0.1.0"), Ok(()));
    assert_eq!(
        check_cargo_generate_version(&config_requiring(">=1.0"), "0.1.0"),
        Err("Required cargo-generate version not met. Required: >=1.0  was: 0.1.0".to_string())
    );
    assert!(check_cargo_generate_version(&config_requiring("not a req"), "0.1.0").is_err());
}

#[test]
fn template_vcs_choice_comes_first() {
    assert_eq!(chosen_vcs(Some(Vcs::NoVcs), Some(Vcs::Git)), Vcs::NoVcs);
    assert_eq!(chosen_vcs(None, Some(Vcs::NoVcs)), Vcs::NoVcs);
    assert_eq!(chosen_vcs(None, None), Vcs::Git);
}
