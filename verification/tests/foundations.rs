use agentenv::digest::sha256_hex;
use agentenv::ids::{fresh_generation_name, SandboxId};
use agentenv::orchestrator::persistence::manifests::sandbox_directory;
use agentenv::path_order::is_before;
use agentenv::paths::{extension_is, PathPart, StorePath};
use agentenv::text::{decimal_text, text_equal, without_prefix};

fn path(text: &str) -> StorePath {
    StorePath::from_text(text)
}

#[test]
fn digests_are_lower_case_hexadecimal() {
    assert_eq!(
        sha256_hex(b""),
        "e3b0c44298fc1c149afbf4c8996fb92427ae41e4649b934ca495991b7852b855"
    );
    assert_eq!(
        sha256_hex(b"abc"),
        "ba7816bf8f01cfea414140de5dae2223b00361a396177a9cb410ff61f20015ad"
    );
}

#[test]
fn identifiers_are_written_and_read_back() {
    let id = SandboxId { value: 0x0123456789abcdef0123456789abcdef };
    assert_eq!(id.to_text(), "01234567-89ab-cdef-0123-456789abcdef");
    assert_eq!(SandboxId::parse_str(&id.to_text()), Some(id));
    assert_eq!(SandboxId::parse_str("not an identifier"), None);
    let fresh = SandboxId::new();
    assert_eq!(SandboxId::parse_str(&fresh.to_text()), Some(fresh));
    assert_ne!(fresh, SandboxId::new());
    assert!(SandboxId::parse_str(&fresh_generation_name()).is_some());
}

#[test]
fn names_of_sandbox_directories_are_identifiers() {
    let id = SandboxId { value: 7 };
    assert_eq!(sandbox_directory(id.to_text().as_bytes(), true), Some(id));
    assert_eq!(sandbox_directory(id.to_text().as_bytes(), false), None);
    assert_eq!(sandbox_directory(b"stray", true), None);
    assert_eq!(sandbox_directory(&[0xff, 0xfe], true), None);
}

#[test]
fn numbers_are_written_in_decimal() {
    assert_eq!(decimal_text(0), "0");
    assert_eq!(decimal_text(10), "10");
    assert_eq!(decimal_text(u64::MAX), "18446744073709551615");
}

#[test]
fn prefixes_are_taken_off_by_characters() {
    assert_eq!(without_prefix("äöü", "ä"), Some("öü".to_owned()));
    assert_eq!(without_prefix("abc", "abc"), Some(String::new()));
    assert_eq!(without_prefix("abc", "b"), None);
    assert_eq!(without_prefix("a", "abc"), None);
    assert!(text_equal("ä", "ä"));
    assert!(!text_equal("ä", "a"));
}

#[test]
fn paths_are_split_into_components() {
    let found = path("/a//b/./c/");
    assert_eq!(found.depth(), 4);
    assert!(matches!(found.part(0), PathPart::Root));
    assert!(found.same(&path("/a/b/c")));
    assert!(matches!(path("./a").part(0), PathPart::Current));
    assert!(matches!(path("a/../b").part(1), PathPart::Parent));
    assert!(path("a/../b").has_parent_part());
    assert!(!path("a/b").has_parent_part());
    assert!(path("/").is_absolute());
    assert!(!path("").is_absolute());
    assert_eq!(path("").depth(), 0);
}

#[test]
fn paths_are_joined_and_taken_apart() {
    assert_eq!(path("/a").join_text("b").to_text(), "/a/b");
    assert_eq!(path("/a/").join_text("b").to_text(), "/a/b");
    assert_eq!(path("").join_text("b").to_text(), "b");
    assert!(path("/a/b").starts_with(&path("/a")));
    assert!(!path("/ab").starts_with(&path("/a")));
    assert!(path("/a/b").has_parent(&path("/a")));
    assert!(path("/a/b").parent().unwrap().same(&path("/a")));
    assert!(path("/").parent().is_none());
    assert!(path("").parent().is_none());
    assert_eq!(path("/a/b.json").file_name(), Some(b"b.json".to_vec()));
    assert_eq!(path("/a/..").file_name(), None);
    assert_eq!(path("/").file_name(), None);
}

#[test]
fn parents_keep_the_spelling_of_their_path() {
    let spellings = [
        "/a//b/c", "/a/./b", "//a", "///a/", "./a", "./a/b", "a", "a/.", "a/..", "..", ".", "", "/",
        "//", "/.", "a//b//c//", "/a/b/./.", "a/./././b", ".//a/.//b/.",
    ];
    for spelling in spellings {
        let found = path(spelling).parent().map(|parent| parent.to_text());
        let expected = std::path::Path::new(spelling)
            .parent()
            .map(|parent| parent.display().to_string());
        assert_eq!(found, expected, "{spelling:?}");
        let count = std::path::Path::new(spelling).components().count();
        assert_eq!(path(spelling).depth(), count, "{spelling:?}");
    }
}

#[test]
fn malformed_names_are_shown_with_replacements() {
    assert_eq!(StorePath::new(vec![b'/', 0xff]).to_text(), "/\u{fffd}");
}

#[test]
fn extensions_are_what_follows_the_last_dot() {
    assert!(extension_is(&b"data.commit".to_vec(), b"commit"));
    assert!(extension_is(&b"a.b.commit".to_vec(), b"commit"));
    assert!(!extension_is(&b"commit".to_vec(), b"commit"));
    assert!(!extension_is(&b".commit".to_vec(), b"commit"));
    assert!(!extension_is(&b"data.commits".to_vec(), b"commit"));
}

#[test]
fn paths_are_ordered_by_components() {
    assert!(is_before(&path("/a"), &path("/a/b")));
    assert!(is_before(&path("/a/b"), &path("/a-b")));
    assert!(!is_before(&path("/a/b"), &path("/a//b")));
    assert!(is_before(&path("a/../b"), &path("a/b")));
}
