use cargo_generate::git::gix::{
    is_http_repo_url, join_relative_url, resolve_submodule_url, looks_like_short_sha, sh_single_quote,
    should_limit_fetch_depth, CheckoutTarget, RepoCloneBuilder,
};

#[test]
fn build_requires_destination() {
    let err = match RepoCloneBuilder::new("https://github.com/example/template.git").build() {
        Ok(_) => panic!("expected build() to fail without a destination"),
        Err(err) => err,
    };
    assert!(err.contains("Destination"));
}

#[test]
fn sh_single_quote_wraps_plain_paths() {
    assert_eq!(
        sh_single_quote("/home/user/.ssh/id_ed25519"),
        "'/home/user/.ssh/id_ed25519'"
    );
}

#[test]
fn sh_single_quote_escapes_embedded_single_quote() {
    assert_eq!(sh_single_quote("/path/it's/key"), "'/path/it'\\''s/key'");
}

#[test]
fn sh_single_quote_preserves_spaces() {
    assert_eq!(
        sh_single_quote("/home/some user/id_rsa"),
        "'/home/some user/id_rsa'"
    );
}

#[test]
fn sh_single_quote_of_empty_and_only_quotes() {
    assert_eq!(sh_single_quote(""), "''");
    assert_eq!(sh_single_quote("''"), "''\\'''\\'''");
}

#[test]
fn http_clones_are_shallow_by_default() {
    assert!(should_limit_fetch_depth(
        "https://github.com/example/template",
        false
    ));
}

#[test]
fn revision_clones_skip_shallow_http_fetch() {
    assert!(!should_limit_fetch_depth(
        "https://github.com/example/template",
        true
    ));
}

#[test]
fn non_http_clones_do_not_set_fetch_depth() {
    assert!(!should_limit_fetch_depth("git@example.com:repo.git", false));
}

#[test]
fn http_urls_are_recognised_by_scheme() {
    assert!(is_http_repo_url("http://x"));
    assert!(is_http_repo_url("https://x"));
    assert!(!is_http_repo_url("ssh://x"));
    assert!(!is_http_repo_url("/tmp/http://x"));
}

#[test]
fn join_relative_url_appends_dot_slash() {
    assert_eq!(
        join_relative_url("https://github.com/foo/bar.git", "./baz.git"),
        "https://github.com/foo/bar.git/baz.git"
    );
}

#[test]
fn join_relative_url_walks_up_with_dot_dot_slash() {
    assert_eq!(
        join_relative_url("https://github.com/foo/bar.git", "../baz.git"),
        "https://github.com/foo/baz.git"
    );
}

#[test]
fn join_relative_url_walks_up_twice() {
    assert_eq!(
        join_relative_url("https://github.com/foo/bar/child.git", "../../shared.git"),
        "https://github.com/foo/shared.git"
    );
}

#[test]
fn join_relative_url_handles_file_path_parents() {
    assert_eq!(
        join_relative_url("/tmp/parent-repo", "../shared.git"),
        "/tmp/shared.git"
    );
}

#[test]
fn join_relative_url_ignores_trailing_slashes_of_parent() {
    assert_eq!(join_relative_url("/tmp/parent//", "./x"), "/tmp/parent/x");
}

#[test]
fn short_shas_are_hex_and_shorter_than_forty() {
    assert!(looks_like_short_sha("abc123"));
    assert!(!looks_like_short_sha("ABCDEF0"));
    assert!(!looks_like_short_sha("HEAD"));
    assert!(!looks_like_short_sha(""));
    assert!(!looks_like_short_sha("xyz"));
    assert!(!looks_like_short_sha(&"a".repeat(40)));
    assert!(looks_like_short_sha(&"a".repeat(39)));
}

#[test]
fn later_tag_or_revision_wins() {
    let b = RepoCloneBuilder::new("https://h/r.git")
        .with_revision(Some("abc"))
        .with_tag(Some("v1"));
    assert_eq!(b.target, Some(CheckoutTarget::Ref("v1".to_string())));
    assert!(!b.requires_full_history);
    let b = RepoCloneBuilder::new("https://h/r.git")
        .with_tag(Some("v1"))
        .with_revision(Some("abc"));
    assert_eq!(b.target, Some(CheckoutTarget::Revision("abc".to_string())));
    assert!(b.requires_full_history);
    let b = b.with_branch(None).with_tag(None).with_revision(None);
    assert_eq!(b.target, Some(CheckoutTarget::Revision("abc".to_string())));
}

#[test]
fn built_clone_reports_shallowness_and_expansion() {
    let cmd = RepoCloneBuilder::new("https://h/r.git")
        .with_revision(Some("abc"))
        .with_destination(".")
        .ok()
        .unwrap()
        .build()
        .ok()
        .unwrap();
    assert!(!cmd.is_shallow());
    assert!(cmd.needs_revision_expansion());
    assert_eq!(cmd.ssh_command_override(), None);
    let cmd = RepoCloneBuilder::new("https://h/r.git")
        .with_destination(".")
        .ok()
        .unwrap()
        .build()
        .ok()
        .unwrap();
    assert!(cmd.is_shallow());
    assert!(!cmd.needs_revision_expansion());
}

#[test]
fn resolve_submodule_url_resolves_only_relative_urls() {
    assert_eq!(
        resolve_submodule_url("https://github.com/foo/bar.git", "../baz.git"),
        "https://github.com/foo/baz.git"
    );
    assert_eq!(
        resolve_submodule_url("https://github.com/foo/bar.git", "./baz.git"),
        "https://github.com/foo/bar.git/baz.git"
    );
    assert_eq!(
        resolve_submodule_url("https://github.com/foo/bar.git", "https://example.com/x.git"),
        "https://example.com/x.git"
    );
    assert_eq!(resolve_submodule_url("/tmp/parent", "sub/x.git"), "sub/x.git");
}
