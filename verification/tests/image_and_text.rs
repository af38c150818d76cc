use mgs_cli::image::build_full_image_name;
use mgs_cli::text::{concat2, contains_str, str_equal, strip_prefix_all_exec, strip_suffix_char_all_exec};

#[test]
fn empty_endpoint_keeps_image() {
    assert_eq!(build_full_image_name("", "runner:1.2"), "runner:1.2");
}

#[test]
fn scheme_and_trailing_slashes_are_removed() {
    assert_eq!(build_full_image_name("https://registry.example.com/", "runner:latest"), "registry.example.com/runner:latest");
    assert_eq!(build_full_image_name("http://10.0.0.5:5000//", "img"), "10.0.0.5:5000/img");
    assert_eq!(build_full_image_name("registry.local", "img"), "registry.local/img");
}

#[test]
fn repeated_prefixes_are_all_removed() {
    assert_eq!(build_full_image_name("http://http://reg", "img"), "reg/img");
    // `https://` is removed after `http://`, so a later `http://` stays.
    assert_eq!(build_full_image_name("https://http://reg", "img"), "http://reg/img");
}

#[test]
fn endpoint_of_only_slashes_gives_a_leading_slash() {
    assert_eq!(build_full_image_name("/", "img"), "/img");
}

#[test]
fn strip_helpers() {
    assert_eq!(strip_prefix_all_exec("ababx", "ab"), "x");
    assert_eq!(strip_prefix_all_exec("abc", ""), "abc");
    assert_eq!(strip_suffix_char_all_exec("a///", '/'), "a");
    assert_eq!(strip_suffix_char_all_exec("", '/'), "");
}

#[test]
fn contains_and_equality() {
    assert!(contains_str("Error: Conflict (409)", "Conflict"));
    assert!(!contains_str("conflict", "Conflict"));
    assert!(contains_str("abc", ""));
    assert!(!contains_str("ab", "abc"));
    assert!(str_equal("héllo", "héllo"));
    assert!(!str_equal("hello", "hell"));
    assert_eq!(concat2("a", "b"), "ab");
}
