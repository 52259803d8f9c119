use rust_auth::error_map::ErrorMap;
use rust_auth::forms::{
    check_confirmation, check_email, check_password, check_username, validate_signin,
    validate_signup, SignInData, SignUpData,
};
use rust_auth::validation::{
    extract_errors, username_matches, validate_email, validate_password, ValidationError,
    ValidationErrors, ValidationErrorsKind,
};

const PASSWORD_RULE_MESSAGE: &str = "password must be 4-50 characters long, contain letters and numbers, and must not contain spaces, special characters, or emoji";

fn signup_form(username: &str, email: &str, password: &str, password2: &str) -> SignUpData {
    SignUpData {
        username: username.to_string(),
        email: email.to_string(),
        password: password.to_string(),
        password2: password2.to_string(),
    }
}

fn message(map: &ErrorMap, field: &str) -> Option<String> {
    map.get(&field.to_string())
}

#[test]
fn password_too_short_is_refused() {
    let err = validate_password("abc").unwrap_err();
    assert_eq!(err.code, "Password Validation Failed");
    assert_eq!(err.message, None);
}

#[test]
fn password_without_uppercase_or_digit_is_refused() {
    assert!(validate_password("abcdefgh").is_err());
}

#[test]
fn password_with_all_classes_is_accepted() {
    assert!(validate_password("Abcdefg1").is_ok());
}

#[test]
fn password_with_whitespace_is_refused() {
    assert!(validate_password("Abcdef 12").is_err());
    assert!(validate_password("Abcdefg1\t").is_err());
    assert!(validate_password("Abcdefg1\u{00a0}").is_err());
}

#[test]
fn password_needs_each_class() {
    assert!(validate_password("ABCDEFG1").is_err());
    assert!(validate_password("abcdefg1").is_err());
    assert!(validate_password("Abcdefgh").is_err());
    assert!(validate_password("Abcdef1").is_err());
    assert!(validate_password("Abcdef12").is_ok());
}

#[test]
fn password_length_counts_bytes() {
    // Seven characters, nine bytes.
    assert!(validate_password("Abcd1\u{00e9}\u{00e9}").is_ok());
    // A digit that is not one of 0 to 9 does not count as a digit.
    assert!(validate_password("Abcdefgh\u{0663}").is_err());
}

#[test]
fn short_password_of_many_bytes_breaks_only_the_length_rule() {
    // An uppercase and a lowercase Deseret letter and a digit: 3 characters, 9 bytes.
    let password = "\u{10400}\u{10428}1";
    assert!(validate_password(password).is_ok());
    let broken = check_password(password);
    assert_eq!(broken.len(), 1);
    assert_eq!(broken[0].code, "length");
    assert_eq!(
        broken[0].message.as_deref(),
        Some("Password must be greater than 4 chars")
    );
    let form = SignInData { username: "alice1".to_string(), password: password.to_string() };
    let messages = validate_signin(&form).unwrap_err();
    assert_eq!(
        message(&messages, "password").as_deref(),
        Some("Password must be greater than 4 chars")
    );
    assert_eq!(message(&messages, "username"), None);
}

#[test]
fn username_shape() {
    assert!(username_matches("alice1"));
    assert!(username_matches("a_b-"));
    assert!(username_matches("ABCD"));
    assert!(!username_matches("abc"));
    assert!(!username_matches(""));
    assert!(!username_matches("alice 1"));
    assert!(!username_matches("alice!"));
    assert!(!username_matches("alic\u{00e9}"));
    assert!(!username_matches("alice1\n"));
    assert!(username_matches(&"a".repeat(50)));
    assert!(!username_matches(&"a".repeat(51)));
    assert!(!username_matches(&"a".repeat(5000)));
}

#[test]
fn username_breaks_in_order() {
    let broken = check_username("ab");
    assert_eq!(broken.len(), 2);
    assert_eq!(broken[0].code, "length");
    assert_eq!(broken[0].message.as_deref(), Some("Username must be greater than 4 chars"));
    assert_eq!(broken[1].code, "regex");
    assert_eq!(
        broken[1].message.as_deref(),
        Some("Username must be alphanumeric and/or dashes only")
    );
    let broken = check_username("not ok");
    assert_eq!(broken.len(), 1);
    assert_eq!(broken[0].code, "regex");
    assert!(check_username("alice1").is_empty());
}

#[test]
fn email_addresses() {
    assert!(validate_email("a@example.com"));
    assert!(validate_email("weirder-email@here.and.there.com"));
    assert!(!validate_email(""));
    assert!(!validate_email("nope"));
    assert!(!validate_email("a@"));
    assert!(!validate_email("@example.com"));
    assert!(!validate_email("a b@example.com"));
    let broken = check_email("nope");
    assert_eq!(broken.len(), 1);
    assert_eq!(broken[0].code, "email");
    assert_eq!(broken[0].message.as_deref(), Some("invalid email"));
    assert!(check_email("a@example.com").is_empty());
}

#[test]
fn confirmation_must_match() {
    let one = "Abcdef12".to_string();
    let other = "Abcdef13".to_string();
    assert!(check_confirmation(&one, &one.clone()).is_empty());
    let broken = check_confirmation(&one, &other);
    assert_eq!(broken.len(), 1);
    assert_eq!(broken[0].code, "must_match");
    assert_eq!(broken[0].message.as_deref(), Some("passwords are not identical"));
}

#[test]
fn password_rule_keeps_its_code_and_gets_a_message() {
    let broken = check_password("abc");
    assert_eq!(broken.len(), 2);
    assert_eq!(broken[0].code, "length");
    assert_eq!(broken[1].code, "Password Validation Failed");
    assert_eq!(broken[1].message.as_deref(), Some(PASSWORD_RULE_MESSAGE));
}

#[test]
fn signup_with_short_password_fails() {
    let form = signup_form("alice1", "a@example.com", "abc", "abc");
    let messages = validate_signup(&form).unwrap_err();
    assert_eq!(messages.len(), 1);
    assert_eq!(message(&messages, "password").as_deref(), Some(PASSWORD_RULE_MESSAGE));
}

#[test]
fn signup_with_weak_password_fails() {
    let form = signup_form("alice1", "a@example.com", "abcdefgh", "abcdefgh");
    let messages = validate_signup(&form).unwrap_err();
    assert_eq!(messages.len(), 1);
    assert_eq!(message(&messages, "password").as_deref(), Some(PASSWORD_RULE_MESSAGE));
}

#[test]
fn signup_with_strong_password_passes() {
    let form = signup_form("alice1", "a@example.com", "Abcdefg1", "Abcdefg1");
    assert!(validate_signup(&form).is_ok());
    assert!(form.validate().is_ok());
}

#[test]
fn signup_reports_every_field_once() {
    let form = signup_form("ab", "nope", "abc", "abd");
    let messages = validate_signup(&form).unwrap_err();
    assert_eq!(messages.len(), 4);
    assert_eq!(
        message(&messages, "username").as_deref(),
        Some("Username must be alphanumeric and/or dashes only")
    );
    assert_eq!(message(&messages, "email").as_deref(), Some("invalid email"));
    assert_eq!(message(&messages, "password").as_deref(), Some(PASSWORD_RULE_MESSAGE));
    assert_eq!(
        message(&messages, "password2").as_deref(),
        Some("passwords are not identical")
    );
    assert_eq!(message(&messages, "other"), None);
    let mut texts = messages.messages();
    texts.sort();
    let mut expected = vec![
        "Username must be alphanumeric and/or dashes only".to_string(),
        "invalid email".to_string(),
        PASSWORD_RULE_MESSAGE.to_string(),
        "passwords are not identical".to_string(),
    ];
    expected.sort();
    assert_eq!(texts, expected);
}

#[test]
fn signup_records_fields_in_order() {
    let form = signup_form("ab", "a@example.com", "Abcdefg1", "nope");
    let errors = form.validate().unwrap_err();
    assert_eq!(errors.entries.len(), 2);
    assert_eq!(errors.entries[0].0, "username");
    assert_eq!(errors.entries[1].0, "password2");
    match &errors.entries[0].1 {
        ValidationErrorsKind::Field(broken) => assert_eq!(broken.len(), 2),
        other => panic!("unexpected record {:?}", other),
    }
}

#[test]
fn signin_form_rules() {
    let good = SignInData { username: "alice1".to_string(), password: "Abcdef12".to_string() };
    assert!(validate_signin(&good).is_ok());
    assert!(good.validate().is_ok());
    let bad = SignInData { username: "al".to_string(), password: "abcdefgh".to_string() };
    let messages = validate_signin(&bad).unwrap_err();
    assert_eq!(messages.len(), 2);
    assert_eq!(
        message(&messages, "username").as_deref(),
        Some("Username must be alphanumeric and/or dashes only")
    );
    assert_eq!(message(&messages, "password").as_deref(), Some(PASSWORD_RULE_MESSAGE));
}

#[test]
fn extract_errors_keeps_the_last_message_of_a_field() {
    let errors = ValidationErrors {
        entries: vec![
            (
                "name".to_string(),
                ValidationErrorsKind::Field(vec![
                    ValidationError::with_message("length", "first"),
                    ValidationError::with_message("regex", "second"),
                ]),
            ),
            ("items".to_string(), ValidationErrorsKind::List),
            ("empty".to_string(), ValidationErrorsKind::Field(vec![])),
            (
                "mail".to_string(),
                ValidationErrorsKind::Field(vec![ValidationError::with_message("email", "third")]),
            ),
            (
                "name".to_string(),
                ValidationErrorsKind::Field(vec![ValidationError::with_message("x", "fourth")]),
            ),
        ],
    };
    let map = extract_errors(&errors);
    assert_eq!(map.len(), 2);
    assert_eq!(message(&map, "name").as_deref(), Some("fourth"));
    assert_eq!(message(&map, "mail").as_deref(), Some("third"));
    assert_eq!(message(&map, "items"), None);
    assert_eq!(message(&map, "empty"), None);
}

#[test]
fn extract_errors_of_nothing_is_empty() {
    let map = extract_errors(&ValidationErrors { entries: vec![] });
    assert_eq!(map.len(), 0);
    assert!(map.messages().is_empty());
}

#[test]
fn error_map_replaces_in_place() {
    let mut map = ErrorMap::new();
    assert_eq!(map.len(), 0);
    map.insert("a".to_string(), "one".to_string());
    map.insert("b".to_string(), "two".to_string());
    map.insert("a".to_string(), "three".to_string());
    assert_eq!(map.len(), 2);
    assert_eq!(message(&map, "a").as_deref(), Some("three"));
    assert_eq!(message(&map, "b").as_deref(), Some("two"));
    assert_eq!(message(&map, "c"), None);
    assert_eq!(map.messages(), vec!["three".to_string(), "two".to_string()]);
}

#[test]
fn validation_error_constructors() {
    let plain = ValidationError::new("code");
    assert_eq!(plain.code, "code");
    assert_eq!(plain.message, None);
    let told = ValidationError::with_message("code", "text");
    assert_eq!(told.code, "code");
    assert_eq!(told.message.as_deref(), Some("text"));
}
