use user_directory::{Timestamp, User, UserError, UserOperations, UserStatus};

fn make(id: &str, name: &str, email: &str) -> Result<User, UserError> {
    User::new(id.to_string(), name.to_string(), email.to_string())
}

fn make_with(id: &str, name: &str, email: &str, status: UserStatus) -> Result<User, UserError> {
    make(id, name, email).map(|u| u.with_status(status))
}

fn at(seconds: i64, nanos: u32) -> Timestamp {
    Timestamp { seconds, nanos }
}

#[test]
fn test_user_creation() {
    let user = User::new(
        "1".to_string(),
        "Test User".to_string(),
        "test@example.com".to_string(),
    )
    .unwrap();

    assert_eq!(user.id, "1");
    assert_eq!(user.name, "Test User");
    assert_eq!(user.email, "test@example.com");
    assert_eq!(user.status, UserStatus::Active);
    assert!(user.is_active());
}

#[test]
fn test_invalid_email() {
    let result = User::new(
        "1".to_string(),
        "Test User".to_string(),
        "invalid-email".to_string(),
    );

    assert!(result.is_err());
}

#[test]
fn invalid_email_error_carries_the_email() {
    match make("1", "A", "no-at-sign.com") {
        Err(UserError::InvalidEmail { email }) => assert_eq!(email, "no-at-sign.com"),
        _ => panic!("expected InvalidEmail"),
    }
    assert!(make("1", "A", "at@nodot").is_err());
    assert!(make("1", "A", "").is_err());
}

#[test]
fn weak_email_rule_accepts_odd_addresses() {
    assert!(make("1", "A", "a@b.").is_ok());
    assert!(make("1", "A", ".@").is_ok());
}

#[test]
fn new_user_is_active_with_no_metadata_and_recent_creation() {
    let u = make("7", "Seven", "s@x.io").unwrap();
    assert_eq!(u.status, UserStatus::Active);
    assert!(u.metadata.is_empty());
    // created by the clock, after 2020-01-01
    assert!(u.created_at.seconds > 1_577_836_800);
    assert!(u.days_active() >= 0);
    assert_eq!(u.get_age_category(), "New");
}

#[test]
fn new_at_keeps_the_given_time() {
    let u = User::new_at("1".to_string(), "N".to_string(), "n@x.y".to_string(), at(1000, 5)).unwrap();
    assert_eq!(u.created_at, at(1000, 5));
}

#[test]
fn status_validity_excludes_suspended() {
    assert!(UserStatus::Active.is_valid());
    assert!(UserStatus::Inactive.is_valid());
    assert!(UserStatus::Pending.is_valid());
    assert!(!UserStatus::Suspended.is_valid());
}

#[test]
fn status_tokens_and_labels() {
    assert_eq!(UserStatus::Active.token(), "active");
    assert_eq!(UserStatus::Suspended.token(), "suspended");
    assert_eq!(UserStatus::Pending.label(), "Pending");
    assert_eq!(UserStatus::Inactive.label(), "Inactive");
    for s in [UserStatus::Active, UserStatus::Inactive, UserStatus::Pending, UserStatus::Suspended] {
        assert_eq!(UserStatus::from_token(&s.token()), Some(s));
    }
    assert_eq!(UserStatus::from_token("Active"), None);
    assert_eq!(UserStatus::from_token(""), None);
}

#[test]
fn display_name_falls_back_to_email() {
    let u = make("1", "Ann", "ann@x.org").unwrap();
    assert_eq!(u.display_name(), "Ann");
    let v = make("2", "", "anon@x.org").unwrap();
    assert_eq!(v.display_name(), "anon@x.org");
}

#[test]
fn with_status_replaces_only_the_status() {
    let u = make("1", "Ann", "ann@x.org").unwrap();
    let v = u.with_status(UserStatus::Suspended);
    assert_eq!(v.status, UserStatus::Suspended);
    assert_eq!(v.id, "1");
    assert!(!v.is_active());
}

#[test]
fn days_round_toward_zero() {
    let start = at(0, 0);
    assert_eq!(start.days_until(at(86_400 * 2, 0)), 2);
    assert_eq!(start.days_until(at(86_400 * 2 - 1, 999_999_999)), 1);
    assert_eq!(start.days_until(at(-86_400 - 43_200, 0)), -1);
    assert_eq!(at(100, 500).days_until(at(100, 500)), 0);
}

#[test]
fn age_categories_by_days() {
    let u = User::new_at("1".to_string(), "N".to_string(), "n@x.y".to_string(), at(0, 0)).unwrap();
    assert_eq!(u.age_category_on(at(0, 0)), "New");
    assert_eq!(u.age_category_on(at(30 * 86_400, 0)), "New");
    assert_eq!(u.age_category_on(at(31 * 86_400, 0)), "Regular");
    assert_eq!(u.age_category_on(at(365 * 86_400, 0)), "Regular");
    assert_eq!(u.age_category_on(at(366 * 86_400, 0)), "Veteran");
    assert_eq!(u.days_active_at(at(10 * 86_400 + 5, 0)), 10);
}

#[test]
fn validate_checks_id_name_then_email() {
    let mut u = make("1", "Ann", "ann@x.org").unwrap();
    assert!(u.validate().is_ok());
    u.email = "broken".to_string();
    assert!(matches!(u.validate(), Err(UserError::InvalidEmail { .. })));
    u.name = String::new();
    assert!(matches!(u.validate(), Err(UserError::EmptyName)));
    u.id = String::new();
    assert!(matches!(u.validate(), Err(UserError::EmptyId)));
}

#[test]
fn error_messages() {
    let e = UserError::NotFound { id: "9".to_string() };
    assert_eq!(e.message(), "User not found: 9");
    let e = UserError::ApiError { message: "boom".to_string() };
    assert_eq!(e.message(), "API request failed: boom");
    assert_eq!(UserError::EmptyId.message(), "User ID cannot be empty");
}

#[test]
fn add_metadata_inserts_and_overwrites() {
    let mut u = make("1", "Ann", "ann@x.org").unwrap();
    u.add_metadata("role".to_string(), serde_json::Value::from("admin"));
    u.add_metadata("age".to_string(), serde_json::Value::from(41));
    u.add_metadata("role".to_string(), serde_json::Value::from("owner"));
    assert_eq!(u.metadata.len(), 2);
    assert_eq!(u.metadata[0].0, "role");
    assert_eq!(u.metadata[0].1, serde_json::Value::from("owner"));
    assert_eq!(u.metadata[1].1, serde_json::Value::from(41));
}

#[test]
fn duplicate_is_an_equal_independent_copy() {
    let mut u = make("1", "Ann", "ann@x.org").unwrap();
    u.add_metadata("k".to_string(), serde_json::Value::from(true));
    let mut c = u.duplicate();
    assert_eq!(c.id, u.id);
    assert_eq!(c.metadata[0].1, serde_json::Value::from(true));
    c.name.push_str("!");
    assert_eq!(u.name, "Ann");
}

#[test]
fn describe_shows_the_fields() {
    let u = make_with("3", "Bob", "bob@x.org", UserStatus::Pending).unwrap();
    assert_eq!(u.describe(), "User(id=3, name=Bob, email=bob@x.org, status=Pending)");
}

#[test]
fn envelopes() {
    let ok = user_directory::ApiResponse::success(5u8);
    assert!(ok.success);
    assert_eq!(ok.data, Some(5));
    assert!(ok.error.is_none());
    let bad = user_directory::ApiResponse::<u8>::error("no".to_string());
    assert!(!bad.success);
    assert!(bad.data.is_none());
    assert_eq!(bad.error.as_deref(), Some("no"));
}
