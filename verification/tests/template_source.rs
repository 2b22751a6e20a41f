use cargo_generate::template_source::{
    looks_like_url, parse_owner_repo, strip_host_prefix, CloneOptions, GitHost, TemplateLocation,
    TemplateSource,
};

#[test]
fn git_host_to_url_github() {
    assert_eq!(
        GitHost::GitHub.to_url("owner/repo"),
        "https://github.com/owner/repo.git"
    );
}

#[test]
fn git_host_to_url_gitlab() {
    assert_eq!(
        GitHost::GitLab.to_url("owner/repo"),
        "https://gitlab.com/owner/repo.git"
    );
}

#[test]
fn git_host_to_url_bitbucket() {
    assert_eq!(
        GitHost::Bitbucket.to_url("owner/repo"),
        "https://bitbucket.org/owner/repo.git"
    );
}

#[test]
fn git_host_to_url_sourcehut_inserts_tilde() {
    assert_eq!(
        GitHost::SourceHut.to_url("user/repo"),
        "https://git.sr.ht/~user/repo"
    );
}

#[test]
fn strip_host_prefix_recognizes_gh() {
    assert_eq!(strip_host_prefix("gh:o/r"), Some((GitHost::GitHub, "o/r")));
}
#[test]
fn strip_host_prefix_recognizes_gl() {
    assert_eq!(strip_host_prefix("gl:o/r"), Some((GitHost::GitLab, "o/r")));
}
#[test]
fn strip_host_prefix_recognizes_bb() {
    assert_eq!(strip_host_prefix("bb:o/r"), Some((GitHost::Bitbucket, "o/r")));
}
#[test]
fn strip_host_prefix_recognizes_sr() {
    assert_eq!(strip_host_prefix("sr:u/r"), Some((GitHost::SourceHut, "u/r")));
}
#[test]
fn strip_host_prefix_rejects_unknown_prefix() {
    assert_eq!(strip_host_prefix("xx:o/r"), None);
}
#[test]
fn strip_host_prefix_rejects_short_input() {
    assert_eq!(strip_host_prefix("gh"), None);
}
#[test]
fn strip_host_prefix_rejects_bare_owner_repo() {
    assert_eq!(strip_host_prefix("owner/repo"), None);
}

#[test]
fn looks_like_url_https() {
    assert!(looks_like_url("https://github.com/owner/repo.git"));
}
#[test]
fn looks_like_url_http() {
    assert!(looks_like_url("http://example.com/repo.git"));
}
#[test]
fn looks_like_url_ssh_scheme() {
    assert!(looks_like_url("ssh://git@github.com/owner/repo.git"));
}
#[test]
fn looks_like_url_git_scheme() {
    assert!(looks_like_url("git://github.com/owner/repo.git"));
}
#[test]
fn looks_like_url_scp_style() {
    assert!(looks_like_url("git@github.com:owner/repo.git"));
}
#[test]
fn looks_like_url_rejects_owner_repo() {
    assert!(!looks_like_url("owner/repo"));
}
#[test]
fn looks_like_url_rejects_relative_path() {
    assert!(!looks_like_url("./template"));
}
#[test]
fn looks_like_url_rejects_absolute_path() {
    assert!(!looks_like_url("/Users/me/template"));
}
#[test]
fn looks_like_url_rejects_host_prefix() {
    assert!(!looks_like_url("gh:owner/repo"));
}

#[test]
fn parse_owner_repo_simple() {
    assert_eq!(
        parse_owner_repo("owner/repo"),
        Some(("owner".to_owned(), "repo".to_owned()))
    );
}
#[test]
fn parse_owner_repo_with_dashes_and_dots() {
    assert_eq!(
        parse_owner_repo("my-org/my.repo"),
        Some(("my-org".to_owned(), "my.repo".to_owned()))
    );
}
#[test]
fn parse_owner_repo_rejects_relative_dot_prefix() {
    assert_eq!(parse_owner_repo("./path"), None);
}
#[test]
fn parse_owner_repo_rejects_double_dot() {
    assert_eq!(parse_owner_repo("../path"), None);
}
#[test]
fn parse_owner_repo_rejects_three_segments() {
    assert_eq!(parse_owner_repo("a/b/c"), None);
}
#[test]
fn parse_owner_repo_rejects_leading_slash() {
    assert_eq!(parse_owner_repo("/abs/path"), None);
}
#[test]
fn parse_owner_repo_rejects_trailing_slash() {
    assert_eq!(parse_owner_repo("owner/"), None);
}
#[test]
fn parse_owner_repo_rejects_no_slash() {
    assert_eq!(parse_owner_repo("ownerrepo"), None);
}

#[test]
fn display_label_host_shorthand() {
    let s = TemplateSource::HostShorthand {
        host: GitHost::GitHub,
        owner_repo: "o/r".to_owned(),
    };
    assert_eq!(s.display_label(), "gh:o/r");
}
#[test]
fn display_label_owner_repo() {
    let s = TemplateSource::GithubOwnerRepo {
        owner: "o".to_owned(),
        repo: "r".to_owned(),
    };
    assert_eq!(s.display_label(), "o/r");
}
#[test]
fn display_label_remote_url() {
    let s = TemplateSource::RemoteUrl("https://x/y".to_owned());
    assert_eq!(s.display_label(), "https://x/y");
}
#[test]
fn display_label_local_relative() {
    let s = TemplateSource::LocalRelative("./t".to_owned());
    assert_eq!(s.display_label(), "./t");
}
#[test]
fn display_label_local_absolute() {
    let s = TemplateSource::LocalAbsolute("/abs/t".to_owned());
    assert_eq!(s.display_label(), "/abs/t");
}
#[test]
fn display_label_favorite_wraps_inner() {
    let s = TemplateSource::Favorite(Box::new(TemplateSource::GithubOwnerRepo {
        owner: "o".to_owned(),
        repo: "r".to_owned(),
    }));
    assert_eq!(s.display_label(), "favorite → o/r");
}

fn into_template_location_for_test(s: TemplateSource) -> TemplateLocation {
    s.into_template_location(&CloneOptions::default())
}

#[test]
fn into_template_location_maps_host_shorthand_to_git_url() {
    let s = TemplateSource::HostShorthand {
        host: GitHost::GitHub,
        owner_repo: "o/r".to_owned(),
    };
    match into_template_location_for_test(s) {
        TemplateLocation::Git(g) => assert_eq!(g.url(), "https://github.com/o/r.git"),
        TemplateLocation::Path(_) => panic!("expected Git"),
    }
}
#[test]
fn into_template_location_maps_owner_repo_to_git_url() {
    let s = TemplateSource::GithubOwnerRepo {
        owner: "o".to_owned(),
        repo: "r".to_owned(),
    };
    match into_template_location_for_test(s) {
        TemplateLocation::Git(g) => assert_eq!(g.url(), "https://github.com/o/r.git"),
        TemplateLocation::Path(_) => panic!("expected Git"),
    }
}
#[test]
fn into_template_location_maps_remote_url_verbatim() {
    let s = TemplateSource::RemoteUrl("ssh://git@x/y.git".to_owned());
    match into_template_location_for_test(s) {
        TemplateLocation::Git(g) => assert_eq!(g.url(), "ssh://git@x/y.git"),
        TemplateLocation::Path(_) => panic!("expected Git"),
    }
}
#[test]
fn into_template_location_maps_local_to_path() {
    let s = TemplateSource::LocalAbsolute("/abs".to_owned());
    match into_template_location_for_test(s) {
        TemplateLocation::Path(p) => assert_eq!(p, "/abs"),
        TemplateLocation::Git(_) => panic!("expected Path"),
    }
}

#[test]
fn is_remote_for_each_variant() {
    assert!(TemplateSource::HostShorthand {
        host: GitHost::GitHub,
        owner_repo: "o/r".to_owned()
    }
    .is_remote());
    assert!(TemplateSource::GithubOwnerRepo {
        owner: "o".to_owned(),
        repo: "r".to_owned()
    }
    .is_remote());
    assert!(TemplateSource::RemoteUrl("x".to_owned()).is_remote());
    assert!(!TemplateSource::LocalRelative("./t".to_owned()).is_remote());
    assert!(!TemplateSource::LocalAbsolute("/t".to_owned()).is_remote());
    // Favorite delegates to inner
    assert!(
        TemplateSource::Favorite(Box::new(TemplateSource::RemoteUrl("x".to_owned()))).is_remote()
    );
}
