use docker_manager::classifier::{classify, digest_has_prefix, image_extract_hash_from_id};

#[test]
fn extracts_digest_after_separator() {
    assert_eq!(image_extract_hash_from_id("sha256:abc123"), Some("abc123"));
}

#[test]
fn extracts_everything_after_first_separator() {
    assert_eq!(image_extract_hash_from_id("sha256:ab:cd"), Some("ab:cd"));
    assert_eq!(image_extract_hash_from_id(":x"), Some("x"));
}

#[test]
fn no_separator_gives_no_digest() {
    assert_eq!(image_extract_hash_from_id("abc123"), None);
    assert_eq!(image_extract_hash_from_id(""), None);
}

#[test]
fn empty_suffix_gives_no_digest() {
    assert_eq!(image_extract_hash_from_id("sha256:"), None);
    assert_eq!(image_extract_hash_from_id(":"), None);
}

#[test]
fn non_ascii_identifier() {
    assert_eq!(image_extract_hash_from_id("é:ü1"), Some("ü1"));
}

#[test]
fn prefix_comparison_is_literal() {
    assert!(digest_has_prefix("ab12", "ab12cd"));
    assert!(digest_has_prefix("", "ab12cd"));
    assert!(digest_has_prefix("ab12cd", "ab12cd"));
    assert!(!digest_has_prefix("ab12", "ab1199"));
    assert!(!digest_has_prefix("ab12cd00", "ab12cd"));
}

#[test]
fn classify_uses_digest_not_whole_id() {
    assert!(classify("ab12", "sha256:ab12cd"));
    assert!(!classify("sha", "sha256:ab12cd"));
    assert!(!classify("ab12", "ab12cd"));
    assert!(!classify("", "sha256:"));
}
