use crystal_native::digest::{digest_matches, file_digest_text, sha1_hex, ReadFailure};

#[test]
fn sha1_hex_of_known_inputs() {
    assert_eq!(sha1_hex(b"abc"), "a9993e364706816aba3e25717850c26c9cd0d89d");
    assert_eq!(sha1_hex(b""), "da39a3ee5e6b4b0d3255bfef95601890afd80709");
    assert_eq!(
        sha1_hex(b"The quick brown fox jumps over the lazy dog"),
        "2fd4e1c67a2d28fced849ee1bb76e7391b93eb12"
    );
}

#[test]
fn sha1_hex_is_forty_lowercase_digits() {
    let d = sha1_hex(&[0xffu8; 1000]);
    assert_eq!(d.len(), 40);
    assert!(d.chars().all(|c| c.is_ascii_digit() || ('a'..='f').contains(&c)));
}

#[test]
fn digest_comparison_is_case_sensitive() {
    let lower = "a9993e364706816aba3e25717850c26c9cd0d89d".to_string();
    let upper = "A9993E364706816ABA3E25717850C26C9CD0D89D".to_string();
    assert!(digest_matches(&lower, &lower.clone()));
    assert!(!digest_matches(&lower, &upper));
}

#[test]
fn file_digest_text_reports_errors() {
    assert_eq!(
        file_digest_text(Ok(b"abc".to_vec())),
        "a9993e364706816aba3e25717850c26c9cd0d89d"
    );
    assert_eq!(file_digest_text(Ok(vec![7u8; 9000])).len(), 40);
    assert_eq!(file_digest_text(Err(ReadFailure::NotFound)), "FILE_NOT_FOUND");
    assert_eq!(file_digest_text(Err(ReadFailure::ReadError)), "READ_ERROR");
}
