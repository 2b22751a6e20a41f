use cargo_generate::app_config::{AppConfig, FavoriteConfig};
use cargo_generate::template_source::{GitHost, TemplateSource};
use std::path::Path;

fn empty_config() -> AppConfig {
    AppConfig::default()
}

/// A fresh directory under the system temporary directory.
fn scratch_dir() -> tempfile::TempDir {
    tempfile::TempDir::new().unwrap()
}

/// A directory called exactly `name` inside `parent`.
fn named_dir(parent: &Path, name: &str) -> tempfile::TempDir {
    tempfile::Builder::new()
        .prefix(name)
        .rand_bytes(0)
        .tempdir_in(parent)
        .unwrap()
}

fn path_of(d: &tempfile::TempDir) -> String {
    d.path().to_str().unwrap().to_string()
}

#[test]
fn classify_host_shorthand() {
    let s = TemplateSource::classify("gh:owner/repo", &empty_config(), "/tmp");
    assert_eq!(
        s,
        TemplateSource::HostShorthand {
            host: GitHost::GitHub,
            owner_repo: "owner/repo".to_owned()
        }
    );
}

#[test]
fn classify_https_url() {
    let s = TemplateSource::classify(
        "https://github.com/owner/repo.git",
        &empty_config(),
        "/tmp",
    );
    assert_eq!(
        s,
        TemplateSource::RemoteUrl("https://github.com/owner/repo.git".to_owned())
    );
}

#[test]
fn classify_scp_url() {
    let s = TemplateSource::classify("git@github.com:owner/repo.git", &empty_config(), "/tmp");
    assert_eq!(
        s,
        TemplateSource::RemoteUrl("git@github.com:owner/repo.git".to_owned())
    );
}

#[test]
fn classify_absolute_path() {
    let s = TemplateSource::classify("/Users/me/template", &empty_config(), "/tmp");
    assert_eq!(
        s,
        TemplateSource::LocalAbsolute("/Users/me/template".to_owned())
    );
}

#[test]
fn classify_existing_relative_dir() {
    let cwd = scratch_dir();
    let _template = named_dir(cwd.path(), "template");
    let s = TemplateSource::classify("./template", &empty_config(), &path_of(&cwd));
    match s {
        TemplateSource::LocalRelative(p) => assert_eq!(Path::new(&p), cwd.path().join("template")),
        other => panic!("expected a relative template, got {:?}", other),
    }
}

#[test]
fn classify_owner_repo_when_no_local_dir() {
    let cwd = scratch_dir();
    let s = TemplateSource::classify("owner/repo", &empty_config(), &path_of(&cwd));
    assert_eq!(
        s,
        TemplateSource::GithubOwnerRepo {
            owner: "owner".to_owned(),
            repo: "repo".to_owned()
        }
    );
}

#[test]
fn classify_relative_dir_beats_owner_repo() {
    let cwd = scratch_dir();
    let owner = named_dir(cwd.path(), "owner");
    let _repo = named_dir(owner.path(), "repo");
    let s = TemplateSource::classify("owner/repo", &empty_config(), &path_of(&cwd));
    match s {
        TemplateSource::LocalRelative(p) => {
            assert_eq!(Path::new(&p), cwd.path().join("owner/repo"))
        }
        other => panic!("expected a relative template, got {:?}", other),
    }
}

#[test]
fn classify_fallback_to_remote_url() {
    let cwd = scratch_dir();
    let s = TemplateSource::classify("garbage~~~", &empty_config(), &path_of(&cwd));
    assert_eq!(s, TemplateSource::RemoteUrl("garbage~~~".to_owned()));
}

fn config_with_favorite(name: &str, fav: FavoriteConfig) -> AppConfig {
    AppConfig {
        favorites: Some(vec![(name.to_owned(), fav)]),
        ..AppConfig::default()
    }
}

#[test]
fn classify_malformed_favorite_falls_through_to_non_favorite() {
    let cfg = config_with_favorite("just-a-name", FavoriteConfig::default());
    let cwd = scratch_dir();
    let s = TemplateSource::classify("just-a-name", &cfg, &path_of(&cwd));
    assert_eq!(s, TemplateSource::RemoteUrl("just-a-name".to_owned()));
}

#[test]
fn classify_favorite_with_git_string_recurses() {
    let cfg = config_with_favorite(
        "myfave",
        FavoriteConfig {
            git: Some("gh:owner/repo".to_owned()),
            ..FavoriteConfig::default()
        },
    );
    let s = TemplateSource::classify("myfave", &cfg, "/tmp");
    assert_eq!(
        s,
        TemplateSource::Favorite(Box::new(TemplateSource::HostShorthand {
            host: GitHost::GitHub,
            owner_repo: "owner/repo".to_owned(),
        }))
    );
}

#[test]
fn classify_favorite_with_absolute_path() {
    let cfg = config_with_favorite(
        "myfave",
        FavoriteConfig {
            path: Some("/abs/template".to_owned()),
            ..FavoriteConfig::default()
        },
    );
    let s = TemplateSource::classify("myfave", &cfg, "/tmp");
    assert_eq!(
        s,
        TemplateSource::Favorite(Box::new(TemplateSource::LocalAbsolute(
            "/abs/template".to_owned()
        )))
    );
}

#[test]
fn classify_favorite_cycle_bounded_falls_back() {
    let cfg = AppConfig {
        favorites: Some(vec![
            (
                "a".to_owned(),
                FavoriteConfig {
                    git: Some("b".to_owned()),
                    ..FavoriteConfig::default()
                },
            ),
            (
                "b".to_owned(),
                FavoriteConfig {
                    git: Some("a".to_owned()),
                    ..FavoriteConfig::default()
                },
            ),
        ]),
        ..AppConfig::default()
    };
    let s = TemplateSource::classify("a", &cfg, "/tmp");
    assert!(matches!(s, TemplateSource::Favorite(_)));
}

#[test]
fn classify_favorite_with_relative_path_is_joined_to_cwd() {
    let cfg = config_with_favorite(
        "rel",
        FavoriteConfig {
            path: Some("templates/x".to_owned()),
            ..FavoriteConfig::default()
        },
    );
    let s = TemplateSource::classify("rel", &cfg, "/work/");
    assert_eq!(
        s,
        TemplateSource::Favorite(Box::new(TemplateSource::LocalRelative(
            "/work/templates/x".to_owned()
        )))
    );
}

#[test]
fn classify_plain_uses_the_given_directory_answer() {
    assert_eq!(
        TemplateSource::classify_plain("owner/repo", "/base", true),
        TemplateSource::LocalRelative("/base/owner/repo".to_owned())
    );
    assert_eq!(
        TemplateSource::classify_plain("owner/repo", "/base", false),
        TemplateSource::GithubOwnerRepo {
            owner: "owner".to_owned(),
            repo: "repo".to_owned()
        }
    );
}

#[test]
fn get_favorite_cfg_finds_by_name() {
    let cfg = config_with_favorite(
        "fav",
        FavoriteConfig {
            git: Some("x".to_owned()),
            ..FavoriteConfig::default()
        },
    );
    assert_eq!(
        cfg.get_favorite_cfg("fav").and_then(|f| f.git.clone()),
        Some("x".to_owned())
    );
    assert!(cfg.get_favorite_cfg("other").is_none());
    assert!(AppConfig::default().get_favorite_cfg("fav").is_none());
}

#[test]
fn labels_classify_back_to_their_source() {
    let cwd = scratch_dir();
    let sources = vec![
        TemplateSource::HostShorthand { host: GitHost::GitLab, owner_repo: "o/r".to_owned() },
        TemplateSource::HostShorthand { host: GitHost::SourceHut, owner_repo: "u/x".to_owned() },
        TemplateSource::LocalAbsolute("/some/abs/dir".to_owned()),
    ];
    for s in sources {
        let again = TemplateSource::classify(&s.display_label(), &empty_config(), &path_of(&cwd));
        assert_eq!(again, s);
    }
}

#[test]
fn malformed_favorite_classifies_like_no_favorite() {
    let cwd = scratch_dir();
    let with = config_with_favorite("owner/repo", FavoriteConfig::default());
    assert_eq!(
        TemplateSource::classify("owner/repo", &with, &path_of(&cwd)),
        TemplateSource::classify("owner/repo", &empty_config(), &path_of(&cwd))
    );
}
