use phirepass::token::{extract_creds, TokenError};

#[test]
fn test_extract_creds_valid() {
    let result = extract_creds("pat_abc123.def456".to_string());
    assert!(result.is_ok());
    let (token_id, secret) = result.unwrap();
    assert_eq!(token_id, "abc123");
    assert_eq!(secret, "def456");
}

#[test]
fn test_extract_creds_missing_prefix() {
    let result = extract_creds("abc123.def456".to_string());
    assert!(result.is_err());
}

#[test]
fn test_extract_creds_missing_secret() {
    let result = extract_creds("pat_abc123".to_string());
    assert!(result.is_err());
}

#[test]
fn test_extract_creds_empty() {
    let result = extract_creds("".to_string());
    assert!(result.is_err());
}

#[test]
fn extract_creds_trims_surrounding_whitespace() {
    let (id, secret) = extract_creds("  \tpat_id.sec\n ".to_string()).unwrap();
    assert_eq!(id, "id");
    assert_eq!(secret, "sec");
}

#[test]
fn extract_creds_splits_at_first_dot() {
    let (id, secret) = extract_creds("pat_a.b.c".to_string()).unwrap();
    assert_eq!(id, "a");
    assert_eq!(secret, "b.c");
}

#[test]
fn extract_creds_error_kinds() {
    assert_eq!(extract_creds("   ".to_string()), Err(TokenError::Required));
    assert_eq!(extract_creds("tok_a.b".to_string()), Err(TokenError::InvalidFormat));
    assert_eq!(extract_creds("pat_ab".to_string()), Err(TokenError::MissingPart));
}

#[test]
fn extract_creds_empty_parts() {
    let (id, secret) = extract_creds("pat_.".to_string()).unwrap();
    assert_eq!(id, "");
    assert_eq!(secret, "");
}

#[test]
fn extract_creds_unicode_whitespace_is_trimmed() {
    let (id, secret) = extract_creds("\u{3000}pat_x.y\u{a0}".to_string()).unwrap();
    assert_eq!(id, "x");
    assert_eq!(secret, "y");
}
