use std::collections::HashSet;

use auth_service::{Email, EmailParseError};

#[test]
fn test_empty_email_is_rejected() {
    let email = "".to_string();
    let result = Email::parse(email);
    assert_eq!(result, Err(EmailParseError::EmptyEmail));
}

#[test]
fn test_email_without_at_symbol_is_rejected() {
    let email = "invalid-email".to_string();
    let result = Email::parse(email);
    assert_eq!(result, Err(EmailParseError::InvalidFormat));
}

#[test]
fn test_valid_email_is_accepted() {
    let email = "test@example.com".to_string();
    let result = Email::parse(email);
    assert!(result.is_ok());
}

#[test]
fn email_test_as_ref() {
    let email = Email::parse("test@example.com".to_string()).unwrap();
    assert_eq!(email.as_ref(), "test@example.com");
}

#[test]
fn test_email_missing_domain() {
    let email = "user@".to_string();
    let result = Email::parse(email);
    assert_eq!(result, Err(EmailParseError::InvalidFormat));
}

#[test]
fn test_email_missing_user() {
    let email = "@example.com".to_string();
    let result = Email::parse(email);
    assert_eq!(result, Err(EmailParseError::InvalidFormat));
}

#[test]
fn valid_emails_are_parsed_successfully() {
    let valid = vec![
        "alice@example.com",
        "bob.smith@example.org",
        "carol_jones@example.net",
        "dave-99@mail.example.com",
        "eve+tag@example.co.uk",
        "UPPER@EXAMPLE.COM",
        "a@b.c",
        "user@localhost",
        "user@[127.0.0.1]",
    ];
    for raw in valid {
        let email = Email::parse(raw.to_string());
        assert!(email.is_ok(), "refused: {}", raw);
        assert_eq!(email.unwrap().as_ref(), raw);
    }
}

#[test]
fn malformed_emails_are_rejected() {
    let malformed = vec![
        "plainaddress",
        "user@",
        "@example.com",
        "two@@example.com",
        "with space@example.com",
        "user@-example.com",
        "user@example.com.",
        "user@exam_ple.com",
        "user@example.com\n",
        " ",
        "@",
        "@@",
        "@user@example.com",
        "user@example.com@",
        "user@[127.0.0.256]",
    ];
    for raw in malformed {
        assert_eq!(
            Email::parse(raw.to_string()),
            Err(EmailParseError::InvalidFormat),
            "accepted: {:?}",
            raw
        );
    }
}

#[test]
fn email_parts_have_a_greatest_length() {
    let local_64 = "a".repeat(64);
    let local_65 = "a".repeat(65);
    assert!(Email::parse(format!("{}@example.com", local_64)).is_ok());
    assert_eq!(
        Email::parse(format!("{}@example.com", local_65)),
        Err(EmailParseError::InvalidFormat)
    );
}

#[test]
fn email_is_kept_as_given() {
    let email = Email::parse("Test.User@Example.COM".to_string()).unwrap();
    assert_eq!(email.as_ref(), "Test.User@Example.COM");
    let lower = Email::parse("test.user@example.com".to_string()).unwrap();
    assert_ne!(email, lower);
}

#[test]
fn email_equality_and_clone_go_by_text() {
    let first = Email::parse("test@example.com".to_string()).unwrap();
    let second = Email::parse("test@example.com".to_string()).unwrap();
    let other = Email::parse("other@example.com".to_string()).unwrap();
    assert_eq!(first, second);
    assert_ne!(first, other);
    let copy = first.clone();
    assert_eq!(copy, first);
    assert_eq!(copy.as_ref(), "test@example.com");
}

#[test]
fn email_hash_goes_by_text() {
    let mut seen = HashSet::new();
    assert!(seen.insert(Email::parse("test@example.com".to_string()).unwrap()));
    assert!(!seen.insert(Email::parse("test@example.com".to_string()).unwrap()));
    assert!(seen.insert(Email::parse("other@example.com".to_string()).unwrap()));
    assert_eq!(seen.len(), 2);
}

#[test]
fn classify_reports_emptiness_before_format() {
    assert_eq!(Email::classify("", false), Err(EmailParseError::EmptyEmail));
    assert_eq!(Email::classify("", true), Err(EmailParseError::EmptyEmail));
}

#[test]
fn classify_follows_the_format_check() {
    assert_eq!(Email::classify("user@", false), Err(EmailParseError::InvalidFormat));
    assert_eq!(Email::classify("test@example.com", true), Ok(()));
}
