use cli_app::apperr::ServiceError;
use cli_app::model::UserStatus;
use cli_app::password::validate_password;
use cli_app::user_service::{
    CreateUserRequest, InMemoryUserService, UpdateUserRequest, UserService,
};

const NOW: i64 = 1_700_000_000;

fn create_request(username: &str, password: &str) -> CreateUserRequest {
    CreateUserRequest {
        username: username.to_string(),
        password: password.to_string(),
        status: UserStatus::Active,
    }
}

#[test]
fn create_alice_then_get_by_username_finds_a_hashed_record() {
    let mut svc = InMemoryUserService::default();
    let created = svc.create_user(create_request("alice", "wonderland"), NOW).unwrap();
    assert_ne!(created.id, 0);

    let found = svc.get_user_by_username("alice").unwrap();
    assert_eq!(found.id, created.id);
    assert_eq!(found.username, "alice");
    assert_ne!(found.password, "wonderland");
    assert!(validate_password("wonderland", &found.password).is_ok());
}

#[test]
fn get_by_username_misses_an_absent_name() {
    let mut svc = InMemoryUserService::default();
    svc.create_user(create_request("alice", "pw"), NOW).unwrap();
    assert!(svc.get_user_by_username("bob").is_none());
}

#[test]
fn get_by_id_finds_and_misses() {
    let mut svc = InMemoryUserService::default();
    let u = svc.create_user(create_request("alice", "pw"), NOW).unwrap();
    assert_eq!(svc.get_user_by_id(u.id).unwrap().username, "alice");
    assert!(svc.get_user_by_id(u.id + 1).is_none());
}

#[test]
fn update_of_missing_id_returns_not_found_and_creates_nothing() {
    let mut svc = InMemoryUserService::default();
    let req = UpdateUserRequest {
        id: 9999,
        username: "ghost".to_string(),
        password: "boo".to_string(),
        status: UserStatus::Blocked,
    };
    assert_eq!(svc.update_user(9999, req, NOW).unwrap_err(), ServiceError::NotFound);
    assert!(svc.get_all_users().is_empty());
    assert!(svc.get_user_by_id(9999).is_none());
}

#[test]
fn update_replaces_fields_preserves_created_and_last_login_refreshes_updated() {
    let mut svc = InMemoryUserService::default();
    let created = svc.create_user(create_request("alice", "old-pw"), NOW).unwrap();
    assert_eq!(created.last_login, None);

    let later = NOW + 100;
    let req = UpdateUserRequest {
        id: created.id,
        username: "alice2".to_string(),
        password: "new-pw".to_string(),
        status: UserStatus::Blocked,
    };
    let updated = svc.update_user(created.id, req, later).unwrap();
    assert_eq!(updated.id, created.id);
    assert_eq!(updated.username, "alice2");
    assert_eq!(updated.created, NOW);
    assert_eq!(updated.updated, later);
    assert_eq!(updated.last_login, None);
    assert!(matches!(updated.status, UserStatus::Blocked));
    assert!(validate_password("new-pw", &updated.password).is_ok());
    assert!(validate_password("old-pw", &updated.password).is_err());

    // the store holds the replacement, not a second record
    assert_eq!(svc.get_all_users().len(), 1);
    assert!(svc.get_user_by_username("alice").is_none());
    assert_eq!(svc.get_user_by_username("alice2").unwrap().id, created.id);
}

#[test]
fn delete_twice_fails_the_second_time() {
    let mut svc = InMemoryUserService::default();
    let u = svc.create_user(create_request("alice", "pw"), NOW).unwrap();
    assert!(svc.delete_user(u.id).is_ok());
    assert_eq!(svc.delete_user(u.id).unwrap_err(), ServiceError::NotFound);
    assert!(svc.get_all_users().is_empty());
}

#[test]
fn many_creates_receive_distinct_strictly_increasing_ids() {
    let mut svc = InMemoryUserService::default();
    let n = 25;
    let mut ids = Vec::new();
    // the first record goes through the full create path; the rest reuse one
    // hashed credential, since id allocation is what is under test here and
    // the memory-hard hash would dominate the run otherwise
    let first = svc.create_user(create_request("user0", "pw"), NOW).unwrap();
    ids.push(first.id);
    for k in 1..n {
        let u = svc.insert_user(
            format!("user{}", k),
            first.password.clone(),
            UserStatus::Active,
            NOW,
        );
        ids.push(u.id);
    }
    for w in ids.windows(2) {
        assert!(w[0] < w[1]);
    }
    let mut dedup = ids.clone();
    dedup.sort();
    dedup.dedup();
    assert_eq!(dedup.len(), n);
}

#[test]
fn ids_are_not_reused_after_a_delete() {
    let mut svc = InMemoryUserService::default();
    let a = svc.create_user(create_request("a", "pw"), NOW).unwrap();
    svc.delete_user(a.id).unwrap();
    let b = svc.create_user(create_request("b", "pw"), NOW).unwrap();
    assert!(b.id > a.id);
}

#[test]
fn list_returns_records_in_insertion_order() {
    let mut svc = InMemoryUserService::default();
    svc.create_user(create_request("a", "pw"), NOW).unwrap();
    svc.create_user(create_request("b", "pw"), NOW).unwrap();
    let all = svc.get_all_users();
    assert_eq!(all.len(), 2);
    assert_eq!(all[0].username, "a");
    assert_eq!(all[1].username, "b");
}

#[test]
fn duplicate_usernames_are_not_rejected_and_the_scan_finds_the_first() {
    // uniqueness of usernames is enforced by the relational schema, not by
    // the in-memory backend; the full scan returns the earliest record
    let mut svc = InMemoryUserService::default();
    let first = svc.create_user(create_request("alice", "pw1"), NOW).unwrap();
    let second = svc.create_user(create_request("alice", "pw2"), NOW).unwrap();
    assert_ne!(first.id, second.id);
    assert_eq!(svc.get_user_by_username("alice").unwrap().id, first.id);
}
