use nihilism::text::{str_contains, str_ends_with, vec_contains_string};

#[test]
fn every_string_contains_the_empty_string() {
    assert!(str_contains("", ""));
    assert!(str_contains("abc", ""));
}

#[test]
fn substrings_are_found_anywhere() {
    assert!(str_contains("abc", "abc"));
    assert!(str_contains("abc", "bc"));
    assert!(str_contains("walk away now", "walk away"));
    assert!(str_contains("don't care", "'"));
}

#[test]
fn longer_needles_are_never_found() {
    assert!(!str_contains("abc", "abcd"));
    assert!(!str_contains("", "a"));
}

#[test]
fn overlapping_prefixes_do_not_confuse_the_search() {
    assert!(str_contains("aab", "ab"));
    assert!(!str_contains("aac", "ab"));
}

#[test]
fn suffixes_are_recognised() {
    assert!(str_ends_with("player.json", ".json"));
    assert!(str_ends_with(".json", ".json"));
    assert!(!str_ends_with("json", ".json"));
    assert!(!str_ends_with("player.json.bak", ".json"));
}

#[test]
fn string_vectors_are_searched_by_content() {
    let v = vec!["one".to_string(), "two".to_string()];
    assert!(vec_contains_string(&v, &"two".to_string()));
    assert!(!vec_contains_string(&v, &"three".to_string()));
}
