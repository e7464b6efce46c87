use jb_repo_indexer::args::IndexerArgs;
use base64::engine::general_purpose::STANDARD;
use base64::{DecodeError, Engine};
use jb_repo_indexer::error::{describe_decode_error, HttpFailure, IndexerError};
use jb_repo_indexer::text::{decimal_text, same_string, same_text, strip_enclosing};

#[test]
fn default_settings() {
    let args = IndexerArgs::defaults();
    assert_eq!(args.database, "indexer.db");
    assert_eq!(args.max_parallel_small_requests, 32);
    assert_eq!(args.max_parallel_large_requests, 4);
    assert_eq!(args.output_directory, "meta");
    assert!(!args.no_sync);
    assert!(!args.no_generate);
    assert!(args.is_well_formed());
}

#[test]
fn a_budget_of_zero_is_not_well_formed() {
    let mut args = IndexerArgs::defaults();
    args.max_parallel_small_requests = 0;
    assert!(!args.is_well_formed());
    args.max_parallel_small_requests = 1;
    assert!(args.is_well_formed());
    args.max_parallel_large_requests = 0;
    assert!(!args.is_well_formed());
}

#[test]
fn error_messages() {
    assert_eq!(
        IndexerError::GenericIo("disk full".to_string()).message(),
        "an I/O error occurred: disk full"
    );
    assert_eq!(
        IndexerError::DatabaseError("locked".to_string()).message(),
        "database error: locked"
    );
    assert_eq!(
        IndexerError::HttpClientError(HttpFailure::Transport("timeout".to_string())).message(),
        "http client error: timeout"
    );
    assert_eq!(
        IndexerError::HttpClientError(HttpFailure::Status(503)).message(),
        "http client error: unexpected status 503"
    );
    assert_eq!(
        IndexerError::DeserializeError("missing field".to_string()).message(),
        "deserialization error: missing field"
    );
    assert_eq!(
        IndexerError::JsonError("EOF".to_string()).message(),
        "deserialization error: EOF"
    );
    assert_eq!(IndexerError::NotFound.message(), "not found");
}

#[test]
fn message_of_bad_base64_is_the_decoders() {
    for text in ["not base64!", "AAA", "AA=A", "AAAA=", "A", "AAB=", "=", "AB"] {
        let error = STANDARD.decode(text).unwrap_err();
        assert_eq!(describe_decode_error(&error), format!("{}", error));
        assert_eq!(
            IndexerError::InvalidBase64(error.clone()).message(),
            format!("bad base64 data: {}", error)
        );
    }
}

#[test]
fn descriptions_of_each_decode_error() {
    assert_eq!(
        describe_decode_error(&DecodeError::InvalidByte(3, 33)),
        "Invalid symbol 33, offset 3."
    );
    assert_eq!(
        describe_decode_error(&DecodeError::InvalidLength(5)),
        "Invalid input length: 5"
    );
    assert_eq!(
        describe_decode_error(&DecodeError::InvalidLastSymbol(2, 66)),
        "Invalid last symbol 66, offset 2."
    );
    assert_eq!(
        describe_decode_error(&DecodeError::InvalidPadding),
        "Invalid padding"
    );
    for error in [
        DecodeError::InvalidByte(0, 0),
        DecodeError::InvalidByte(usize::MAX, 255),
        DecodeError::InvalidLength(0),
        DecodeError::InvalidLastSymbol(17, 61),
        DecodeError::InvalidPadding,
    ] {
        assert_eq!(describe_decode_error(&error), format!("{}", error));
    }
}

#[test]
fn http_failure_messages() {
    assert_eq!(HttpFailure::Status(404).message(), "unexpected status 404");
    assert_eq!(HttpFailure::Transport("reset".to_string()).message(), "reset");
    assert_eq!(
        HttpFailure::InvalidUrl("x y".to_string()).message(),
        "invalid URL x y"
    );
}

#[test]
fn decimal_text_of_numbers() {
    assert_eq!(decimal_text(0), "0");
    assert_eq!(decimal_text(7), "7");
    assert_eq!(decimal_text(10), "10");
    assert_eq!(decimal_text(1000), "1000");
    assert_eq!(decimal_text(9876543210), "9876543210");
    assert_eq!(decimal_text(u64::MAX), "18446744073709551615");
}

#[test]
fn decimal_text_agrees_with_formatting() {
    for n in (0..100_000u64).step_by(37) {
        assert_eq!(decimal_text(n), format!("{}", n));
    }
}

#[test]
fn same_text_compares_by_content() {
    assert!(same_text("", ""));
    assert!(same_text("abc", "abc"));
    assert!(!same_text("abc", "abd"));
    assert!(!same_text("abc", "ab"));
    assert!(!same_text("ä", "a"));
}

#[test]
fn same_string_compares_by_content() {
    assert!(same_string(&String::new(), &String::new()));
    assert!(same_string(&"abc".to_string(), &"abc".to_string()));
    assert!(!same_string(&"abc".to_string(), &"abC".to_string()));
    assert!(!same_string(&"abc".to_string(), &"abcd".to_string()));
}

#[test]
fn strip_enclosing_takes_prefix_and_suffix_away() {
    assert_eq!(strip_enclosing("(abc)", "(", ")"), Some("abc".to_string()));
    assert_eq!(strip_enclosing("abc", "", ""), Some("abc".to_string()));
    assert_eq!(strip_enclosing("abc", "abc", ""), Some(String::new()));
    assert_eq!(strip_enclosing("äöü", "ä", "ü"), Some("ö".to_string()));
    assert_eq!(strip_enclosing("aa", "a", "a"), Some(String::new()));
}

#[test]
fn strip_enclosing_needs_both_without_overlap() {
    assert_eq!(strip_enclosing("a", "a", "a"), None);
    assert_eq!(strip_enclosing("(abc", "(", ")"), None);
    assert_eq!(strip_enclosing("abc)", "(", ")"), None);
    assert_eq!(strip_enclosing("", "(", ""), None);
    assert_eq!(strip_enclosing("ab", "abc", ""), None);
}
