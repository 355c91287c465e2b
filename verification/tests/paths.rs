use robinzhon::decimal::to_decimal;
use robinzhon::path::final_segment_of;
use robinzhon::path::join;
use robinzhon::path::resolve_for_directory;

#[test]
fn nested_key_resolves_to_its_last_segment() {
    assert_eq!(resolve_for_directory("a/b/c.txt", "/tmp/out"), "/tmp/out/c.txt");
}

#[test]
fn key_without_separator_resolves_whole() {
    assert_eq!(resolve_for_directory("file.txt", "/tmp/out"), "/tmp/out/file.txt");
}

#[test]
fn final_segment_follows_the_last_separator() {
    assert_eq!(final_segment_of("a/b/c.txt"), "c.txt");
    assert_eq!(final_segment_of("/rooted"), "rooted");
    assert_eq!(final_segment_of("plain"), "plain");
    assert_eq!(final_segment_of(""), "");
}

#[test]
fn final_segment_of_key_ending_in_separator_is_empty() {
    assert_eq!(final_segment_of("a/b/"), "");
    assert_eq!(final_segment_of("/"), "");
}

#[test]
fn final_segment_counts_characters_not_bytes() {
    assert_eq!(final_segment_of("données/été/café.txt"), "café.txt");
    assert_eq!(final_segment_of("日本/語"), "語");
}

#[test]
fn join_adds_one_separator() {
    assert_eq!(join("/tmp/out", "c.txt"), "/tmp/out/c.txt");
}

#[test]
fn join_keeps_an_existing_separator() {
    assert_eq!(join("/tmp/out/", "c.txt"), "/tmp/out/c.txt");
    assert_eq!(join("/", "c.txt"), "/c.txt");
}

#[test]
fn join_under_empty_base_is_the_name() {
    assert_eq!(join("", "c.txt"), "c.txt");
}

#[test]
fn join_with_multibyte_base() {
    assert_eq!(join("/tmp/été", "c.txt"), "/tmp/été/c.txt");
}

#[test]
fn resolve_differs_from_its_arguments() {
    let resolved = resolve_for_directory("dir/name", "base");
    assert_eq!(resolved, "base/name");
    assert_ne!(resolved, "dir/name");
    assert_ne!(resolved, "base");
}

#[test]
fn decimal_of_small_numbers() {
    assert_eq!(to_decimal(0), "0");
    assert_eq!(to_decimal(7), "7");
    assert_eq!(to_decimal(9), "9");
}

#[test]
fn decimal_of_larger_numbers() {
    assert_eq!(to_decimal(10), "10");
    assert_eq!(to_decimal(101), "101");
    assert_eq!(to_decimal(12345), "12345");
    assert_eq!(to_decimal(9876543210), "9876543210");
}

#[test]
fn decimal_of_the_largest_count() {
    assert_eq!(to_decimal(usize::MAX), format!("{}", usize::MAX));
}
