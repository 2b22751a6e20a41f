use cargo_generate::app_config::FavoriteConfig;
use cargo_generate::authors::{first_available, get_authors};
use cargo_generate::favorites::{favorite_entries, favorite_lines};
use cargo_generate::ignore_me::{get_ignored, remove_unneeded_files, IGNORE_FILE_NAME};
use cargo_generate::text::trim_text;

fn fav(description: Option<&str>) -> FavoriteConfig {
    FavoriteConfig {
        description: description.map(|d| d.to_string()),
        ..FavoriteConfig::default()
    }
}

fn strings(v: &[&str]) -> Vec<String> {
    v.iter().map(|s| s.to_string()).collect()
}

#[test]
fn favorites_are_sorted_and_filtered() {
    let favs = Some(vec![
        ("zeta".to_string(), fav(Some("last"))),
        ("alpha".to_string(), fav(None)),
        ("alps".to_string(), fav(Some("mountains"))),
    ]);
    let all = favorite_entries(&favs, None);
    let names: Vec<&str> = all.iter().map(|(n, _)| n.as_str()).collect();
    assert_eq!(names, vec!["alpha", "alps", "zeta"]);
    assert_eq!(all[0].1, "no description");
    let some = favorite_entries(&favs, Some("al"));
    assert_eq!(some.len(), 2);
    assert!(favorite_entries(&None, None).is_empty());
    assert!(favorite_entries(&favs, Some("x")).is_empty());
}

#[test]
fn favorite_lines_are_aligned() {
    let entries = vec![
        ("ab".to_string(), "d1".to_string()),
        ("abcdef".to_string(), "d2".to_string()),
    ];
    let lines = favorite_lines(&entries);
    // longest name has 6 bytes: ((6 + 5) / 4) * 4 = 8
    assert_eq!(lines, strings(&["ab:      d1", "abcdef:  d2"]));
}

#[test]
fn first_set_source_wins() {
    assert_eq!(first_available(&vec![None, Some("b".into()), Some("c".into())]), Some("b".to_string()));
    assert_eq!(first_available(&vec![None, None]), None);
}

#[test]
fn authors_combine_name_and_email() {
    assert_eq!(
        get_authors(&vec![None, Some("  Jane Doe ".into())], &vec![Some("jane@example.com\n".into())]),
        Ok(("Jane Doe".to_string(), "Jane Doe <jane@example.com>".to_string()))
    );
    assert_eq!(
        get_authors(&vec![Some("Jane".into())], &vec![None]),
        Ok(("Jane".to_string(), "Jane".to_string()))
    );
    assert_eq!(
        get_authors(&vec![None], &vec![]),
        Err("could not determine the current user, please set $USER".to_string())
    );
}

#[test]
fn trimming_drops_unicode_white_space() {
    assert_eq!(trim_text("\u{3000} a b \t"), "a b");
    assert_eq!(trim_text("   "), "");
    assert_eq!(trim_text("x"), "x");
}

#[test]
fn ignored_files_of_a_template() {
    assert_eq!(IGNORE_FILE_NAME, ".genignore");
    assert_eq!(
        get_ignored("/t", false, &strings(&["/t/a"]), &Vec::new()),
        strings(&["/t/.genignore", "/t/cargo-generate.toml", "/t/.cargo-ok"])
    );
    assert_eq!(
        get_ignored("/t", true, &strings(&["/t", "/t/a", "/t/b"]), &strings(&["/t", "/t/b"])),
        strings(&["/t/.genignore", "/t/cargo-generate.toml", "/t/.cargo-ok", "/t/a"])
    );
    assert_eq!(
        remove_unneeded_files("/t", strings(&["/t/x"]), &Some(strings(&["y", "z/w"]))),
        strings(&["/t/x", "/t/y", "/t/z/w"])
    );
    assert_eq!(remove_unneeded_files("/t", Vec::new(), &None), Vec::<String>::new());
}
