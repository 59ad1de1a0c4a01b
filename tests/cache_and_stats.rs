use user_directory::{
    ApiResponse, FetchReply, FetchStep, Timestamp, User, UserError, UserManager, UserStatus,
};

fn make(id: &str, name: &str, email: &str) -> User {
    User::new(id.to_string(), name.to_string(), email.to_string()).unwrap()
}

fn sample() -> Vec<User> {
    vec![
        make("1", "User 1", "user1@example.com"),
        make("2", "User 2", "user2@example.com").with_status(UserStatus::Pending),
        make("3", "User 3", "user3@example.com").with_status(UserStatus::Inactive),
    ]
}

fn delivered(u: User) -> FetchReply {
    FetchReply::Delivered(ApiResponse {
        success: true,
        data: Some(u),
        error: None,
        timestamp: Timestamp { seconds: 0, nanos: 0 },
    })
}

#[test]
fn test_user_statistics() {
    let users = sample();
    let stats = UserManager::get_user_statistics(&users);
    assert_eq!(stats.total, 3);
    assert_eq!(stats.active, 1);
    assert_eq!(stats.pending, 1);
    assert_eq!(stats.inactive, 1);
    assert_eq!(stats.suspended, 0);
}

#[test]
fn test_cache_operations() {
    let mut manager = UserManager::new("https://test.com".to_string());
    let count = manager.clear_cache();
    assert_eq!(count, 0);
}

#[test]
fn statistics_sum_days_at_a_time() {
    let t0 = Timestamp { seconds: 0, nanos: 0 };
    let a = User::new_at("a".to_string(), "A".to_string(), "a@x.y".to_string(), t0).unwrap();
    let b = User::new_at(
        "b".to_string(),
        "B".to_string(),
        "b@x.y".to_string(),
        Timestamp { seconds: 86_400 * 3, nanos: 0 },
    )
    .unwrap()
    .with_status(UserStatus::Suspended);
    let now = Timestamp { seconds: 86_400 * 10, nanos: 0 };
    let stats = UserManager::user_statistics_at(&[a, b], now);
    assert_eq!(stats.total, 2);
    assert_eq!(stats.active, 1);
    assert_eq!(stats.suspended, 1);
    assert_eq!(stats.total_days_active, 17);
    assert_eq!(stats.active + stats.inactive + stats.pending + stats.suspended, stats.total);
}

#[test]
fn statistics_of_nothing_are_zero() {
    let stats = UserManager::get_user_statistics(&[]);
    assert_eq!(stats.total, 0);
    assert_eq!(stats.active + stats.inactive + stats.pending + stats.suspended, 0);
    assert_eq!(stats.total_days_active, 0);
}

#[test]
fn filter_keeps_matching_users_in_order() {
    let users = sample();
    let active = UserManager::filter_users_by_status(&users, UserStatus::Active);
    assert_eq!(active.len(), 1);
    assert_eq!(active[0].id, "1");
    let mut more = sample();
    more.push(make("4", "User 4", "user4@example.com"));
    let active = UserManager::filter_users_by_status(&more, UserStatus::Active);
    let ids: Vec<&str> = active.iter().map(|u| u.id.as_str()).collect();
    assert_eq!(ids, vec!["1", "4"]);
    assert!(UserManager::filter_users_by_status(&more, UserStatus::Suspended).is_empty());
}

#[test]
fn empty_id_is_not_found() {
    let m = UserManager::new("https://test.com".to_string());
    match m.begin_fetch("") {
        Err(UserError::NotFound { id }) => assert_eq!(id, ""),
        _ => panic!("expected NotFound"),
    }
}

#[test]
fn miss_asks_the_user_url() {
    let m = UserManager::new("https://test.com".to_string());
    match m.begin_fetch("42") {
        Ok(FetchStep::Request(url)) => assert_eq!(url, "https://test.com/users/42"),
        _ => panic!("expected a request"),
    }
    assert_eq!(m.user_url("7"), "https://test.com/users/7");
}

#[test]
fn delivered_user_is_served_from_cache() {
    let mut m = UserManager::new("https://test.com".to_string());
    let got = m.complete_fetch("1", delivered(make("1", "Ann", "ann@x.org"))).unwrap();
    assert_eq!(got.unwrap().name, "Ann");
    match m.begin_fetch("1") {
        Ok(FetchStep::Cached(u)) => {
            assert_eq!(u.name, "Ann");
            assert_eq!(u.email, "ann@x.org");
        }
        _ => panic!("expected a cache hit"),
    }
    assert!(m.cached_user("2").is_none());
}

#[test]
fn second_delivery_replaces_the_cached_copy() {
    let mut m = UserManager::new("https://test.com".to_string());
    m.complete_fetch("1", delivered(make("1", "Ann", "ann@x.org"))).unwrap();
    m.complete_fetch("1", delivered(make("1", "Anne", "ann@x.org"))).unwrap();
    assert_eq!(m.cached_user("1").unwrap().name, "Anne");
    assert_eq!(m.clear_cache(), 1);
}

#[test]
fn rejected_or_empty_replies_give_no_user() {
    let mut m = UserManager::new("https://test.com".to_string());
    assert!(m.complete_fetch("1", FetchReply::Rejected).unwrap().is_none());
    let empty = FetchReply::Delivered(ApiResponse {
        success: true,
        data: None,
        error: None,
        timestamp: Timestamp { seconds: 0, nanos: 0 },
    });
    assert!(m.complete_fetch("1", empty).unwrap().is_none());
    assert!(m.cached_user("1").is_none());
}

#[test]
fn failed_envelope_is_an_api_error() {
    let mut m = UserManager::new("https://test.com".to_string());
    let failed = FetchReply::Delivered(ApiResponse::error("down".to_string()));
    match m.complete_fetch("1", failed) {
        Err(UserError::ApiError { message }) => assert_eq!(message, "down"),
        _ => panic!("expected ApiError"),
    }
    let silent = FetchReply::Delivered(ApiResponse {
        success: false,
        data: None,
        error: None,
        timestamp: Timestamp { seconds: 0, nanos: 0 },
    });
    match m.complete_fetch("1", silent) {
        Err(UserError::ApiError { message }) => assert_eq!(message, "Unknown error"),
        _ => panic!("expected ApiError"),
    }
}

#[test]
fn accepted_update_evicts_the_entry() {
    let mut m = UserManager::new("https://test.com".to_string());
    m.complete_fetch("1", delivered(make("1", "Ann", "ann@x.org"))).unwrap();
    m.complete_fetch("2", delivered(make("2", "Bo", "bo@x.org"))).unwrap();
    assert!(!m.complete_update("1", false));
    assert!(m.cached_user("1").is_some());
    assert!(m.complete_update("1", true));
    assert!(m.cached_user("1").is_none());
    assert!(m.cached_user("2").is_some());
    assert!(m.complete_update("9", true));
    assert_eq!(m.clear_cache(), 1);
}

#[test]
fn clearing_reports_the_count_and_empties_the_cache() {
    let mut m = UserManager::new("https://test.com".to_string());
    for id in ["a", "b", "c"] {
        m.complete_fetch(id, delivered(make(id, "N", "n@x.y"))).unwrap();
    }
    assert_eq!(m.clear_cache(), 3);
    assert!(matches!(m.begin_fetch("a"), Ok(FetchStep::Request(_))));
    assert_eq!(m.clear_cache(), 0);
}
