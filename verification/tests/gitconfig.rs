use cargo_generate::git::gitconfig::{
    config_string, resolve_http_proxy, resolve_instead_url, ConfigEntry, HttpProxyConfig,
    InsteadOfRule,
};

fn entry(name: &str, value: &str) -> ConfigEntry {
    ConfigEntry { name: name.to_string(), value: value.to_string() }
}

fn rule(base: &str, instead_of: &str) -> InsteadOfRule {
    InsteadOfRule { base: Some(base.to_string()), instead_of: Some(instead_of.to_string()) }
}

// [url "ssh://git@github.com:"]
//     insteadOf = https://github.com/
#[test]
fn should_resolve_instead_url() {
    let rules = vec![rule("ssh://git@github.com:", "https://github.com/")];
    let x = resolve_instead_url("https://github.com/foo/bar.git", &rules);
    assert_eq!(x.unwrap().as_str(), "ssh://git@github.com:foo/bar.git")
}

#[test]
fn instead_url_first_matching_rule_wins() {
    let rules = vec![
        rule("ssh://a:", "https://gitlab.com/"),
        InsteadOfRule { base: None, instead_of: Some("https://github.com/".to_string()) },
        rule("ssh://b:", "https://github.com/"),
        rule("ssh://c:", "https://github.com/"),
    ];
    let x = resolve_instead_url("https://github.com/x", &rules);
    assert_eq!(x.as_deref(), Some("ssh://b:x"));
    assert_eq!(resolve_instead_url("https://example.com/x", &rules), None);
}

#[test]
fn resolve_http_proxy_returns_none_when_unset() {
    let got = resolve_http_proxy(&Vec::new());
    assert_eq!(got, HttpProxyConfig::default());
}

// [http]
//     proxy = http://proxy.internal:3128
#[test]
fn resolve_http_proxy_reads_http_proxy() {
    let got = resolve_http_proxy(&vec![entry("http.proxy", "http://proxy.internal:3128")]);
    assert_eq!(got.proxy.as_deref(), Some("http://proxy.internal:3128"));
    assert!(got.no_proxy.is_none());
}

// [http]
//     proxy = socks5://127.0.0.1:1081
#[test]
fn resolve_http_proxy_reads_socks5_scheme() {
    let got = resolve_http_proxy(&vec![entry("http.proxy", "socks5://127.0.0.1:1081")]);
    assert_eq!(got.proxy.as_deref(), Some("socks5://127.0.0.1:1081"));
}

// [http]
//     proxy = http://p:8080
//     noProxy = localhost,127.0.0.1,.internal
#[test]
fn resolve_http_proxy_reads_no_proxy() {
    let got = resolve_http_proxy(&vec![
        entry("http.proxy", "http://p:8080"),
        entry("http.noproxy", "localhost,127.0.0.1,.internal"),
    ]);
    assert_eq!(got.proxy.as_deref(), Some("http://p:8080"));
    assert_eq!(got.no_proxy.as_deref(), Some("localhost,127.0.0.1,.internal"));
}

#[test]
fn config_last_setting_wins_and_keys_ignore_case() {
    let entries = vec![
        entry("http.proxy", "first"),
        entry("user.name", "someone"),
        entry("HTTP.Proxy", "second"),
        entry("http.noProxy", ""),
    ];
    assert_eq!(config_string(&entries, "http.proxy").as_deref(), Some("second"));
    let got = resolve_http_proxy(&entries);
    assert_eq!(got.proxy.as_deref(), Some("second"));
    assert_eq!(got.no_proxy.as_deref(), Some(""));
    assert_eq!(config_string(&entries, "core.editor"), None);
}
