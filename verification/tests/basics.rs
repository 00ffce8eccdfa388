use astrid_capsule::names::NameMap;
use astrid_capsule::numbers::{parse_number, show};
use astrid_capsule::order::{put_ordered, sort_paths};
use astrid_capsule::paths::{
    components_of, file_name, has_parent_component, is_absolute, is_within,
};
use astrid_capsule::text::{
    contains_char, contains_text, eq_ignore_ascii_case, join, rsplit_once, split, starts_with,
    strip_prefix,
};

#[test]
fn texts_are_taken_apart_and_put_together() {
    assert!(contains_char("héllo", 'é'));
    assert!(!contains_char("", 'a'));
    assert!(contains_text("abcabd", "abd"));
    assert!(contains_text("abc", ""));
    assert!(!contains_text("ab", "abc"));
    assert!(starts_with("cwd://x", "cwd://"));
    assert_eq!(strip_prefix("cwd://x", "cwd://").as_deref(), Some("x"));
    assert_eq!(strip_prefix("x", "cwd://"), None);
    assert!(eq_ignore_ascii_case("LocalHost", "localhost"));
    assert!(!eq_ignore_ascii_case("É", "é"));
    assert_eq!(split("a;;b", ';'), vec!["a", "", "b"]);
    assert_eq!(split("", ';'), vec![""]);
    assert_eq!(
        rsplit_once("a:b:c", ':'),
        Some(("a:b".to_owned(), "c".to_owned()))
    );
    assert_eq!(rsplit_once("abc", ':'), None);
    assert_eq!(join(&vec!["a".to_owned(), "b".to_owned()], " "), "a b");
    assert_eq!(join(&vec![], " "), "");
}

#[test]
fn paths_are_read_by_component() {
    assert_eq!(components_of("/a//b/./c/"), vec!["a", "b", "c"]);
    assert!(is_absolute("/a") && !is_absolute("a"));
    assert!(has_parent_component("a/../b"));
    assert!(!has_parent_component("a/..b"));
    assert_eq!(file_name("/usr/bin/git").as_deref(), Some("git"));
    assert_eq!(file_name("/"), None);
    assert_eq!(file_name("a/.."), None);
    assert!(is_within("/ws/a", "/ws"));
    assert!(is_within("/ws", "/ws"));
    assert!(!is_within("/wsx", "/ws"));
}

#[test]
fn lists_are_kept_in_order() {
    let mut pairs = vec![];
    for (key, value) in [("b", "1"), ("a", "2"), ("B", "3"), ("a", "4")] {
        put_ordered(&mut pairs, key.to_owned(), value.to_owned());
    }
    let shown = pairs
        .iter()
        .map(|(k, v)| format!("{k}{v}"))
        .collect::<Vec<String>>();
    assert_eq!(shown, vec!["B3", "a4", "b1"]);
    let paths = vec!["/b".to_owned(), "/a/x".to_owned(), "/b".to_owned(), "/a".to_owned()];
    assert_eq!(sort_paths(&paths), vec!["/a", "/a/x", "/b"]);
}

#[test]
fn numbers_are_read_and_shown() {
    assert_eq!(parse_number("443", 10, 65535), Some(443));
    assert_eq!(parse_number("+443", 10, 65535), Some(443));
    assert_eq!(parse_number("65536", 10, 65535), None);
    assert_eq!(parse_number("", 10, 65535), None);
    assert_eq!(parse_number("+", 10, 65535), None);
    assert_eq!(parse_number("12a", 10, 65535), None);
    assert_eq!(parse_number("ff", 16, u64::MAX), Some(255));
    assert_eq!(parse_number("-1", 10, 65535), None);
    assert_eq!(show(0), "0");
    assert_eq!(show(u64::MAX), "18446744073709551615");
}

#[test]
fn name_maps_hold_one_value_for_a_name() {
    let mut map: NameMap<u8> = NameMap::new();
    assert_eq!(map.get("a"), None);
    map.insert("a".to_owned(), 1);
    map.insert("b".to_owned(), 2);
    map.insert("a".to_owned(), 3);
    assert_eq!(map.get("a"), Some(&3));
    assert_eq!(map.size(), 2);
    assert!(map.contains("b"));
    assert_eq!(map.remove("a"), Some(3));
    assert_eq!(map.remove("a"), None);
    assert_eq!(map.size(), 1);
}
