use matcha_auth::enums::AccountStatus;
use matcha_auth::store::{StoreError, UserStore};

#[test]
fn create_and_find_users() {
    let mut store = UserStore::new();
    let u = store.create_user(1, "a@x.com", "ua", "hash-a", 100).unwrap();
    assert_eq!(u.id, 1);
    assert_eq!(u.email, "a@x.com");
    assert_eq!(u.account_status, AccountStatus::Active);
    assert!(u.email_verified_at.is_none());
    assert_eq!(u.created_at, 100);
    assert_eq!(u.updated_at, 100);

    assert_eq!(store.find_by_id(1).unwrap().username, "ua");
    assert_eq!(store.find_by_email("a@x.com").unwrap().id, 1);
    assert_eq!(store.find_by_username("ua").unwrap().id, 1);
    assert!(store.find_by_id(2).is_none());
    assert!(store.find_by_email("b@x.com").is_none());
}

#[test]
fn duplicate_rules_follow_liveness() {
    let mut store = UserStore::new();
    store.create_user(1, "a@x.com", "ua", "h", 100).unwrap();

    assert_eq!(
        store.create_user(2, "a@x.com", "ub", "h", 101).unwrap_err(),
        StoreError::DuplicateEmail
    );
    assert_eq!(
        store.create_user(2, "b@x.com", "ua", "h", 101).unwrap_err(),
        StoreError::DuplicateUsername
    );
    assert_eq!(
        store.create_user(1, "b@x.com", "ub", "h", 101).unwrap_err(),
        StoreError::DuplicateId
    );

    // After a soft delete the email and username are free again, but the
    // id stays taken forever.
    store.soft_delete(1, 200).unwrap();
    assert_eq!(
        store.create_user(1, "a@x.com", "ua", "h", 201).unwrap_err(),
        StoreError::DuplicateId
    );
    let again = store.create_user(2, "a@x.com", "ua", "h2", 201).unwrap();
    assert_eq!(again.id, 2);
}

#[test]
fn updates_touch_only_their_field() {
    let mut store = UserStore::new();
    store.create_user(1, "a@x.com", "ua", "h", 100).unwrap();

    let u = store.update_password_hash(1, "h2").unwrap();
    assert_eq!(u.password_hash, "h2");
    assert_eq!(u.email, "a@x.com");

    let u = store.verify_email(1, 150).unwrap();
    assert_eq!(u.email_verified_at, Some(150));
    assert_eq!(u.password_hash, "h2");

    let u = store.update_account_status(1, AccountStatus::Banned).unwrap();
    assert_eq!(u.account_status, AccountStatus::Banned);
    assert_eq!(u.email_verified_at, Some(150));

    assert_eq!(store.update_password_hash(9, "x").unwrap_err(), StoreError::NotFound);
    assert_eq!(store.verify_email(9, 1).unwrap_err(), StoreError::NotFound);
    assert_eq!(store.soft_delete(9, 1).unwrap_err(), StoreError::NotFound);
}

#[test]
fn soft_delete_hides_a_record_from_lookups() {
    let mut store = UserStore::new();
    store.create_user(1, "a@x.com", "ua", "h", 100).unwrap();
    let u = store.soft_delete(1, 170).unwrap();
    assert_eq!(u.deleted_at, Some(170));

    assert!(store.find_by_id(1).is_none());
    assert!(store.find_by_email("a@x.com").is_none());
    assert!(store.find_by_username("ua").is_none());
    assert_eq!(store.soft_delete(1, 180).unwrap_err(), StoreError::NotFound);
}

#[test]
fn active_count_tracks_usable_records() {
    let mut store = UserStore::new();
    assert_eq!(store.count_active_users(), 0);
    store.create_user(1, "a@x.com", "ua", "h", 100).unwrap();
    store.create_user(2, "b@x.com", "ub", "h", 101).unwrap();
    store.create_user(3, "c@x.com", "uc", "h", 102).unwrap();
    assert_eq!(store.count_active_users(), 3);

    store.update_account_status(2, AccountStatus::Suspended).unwrap();
    assert_eq!(store.count_active_users(), 2);
    store.soft_delete(3, 200).unwrap();
    assert_eq!(store.count_active_users(), 1);
}

#[test]
fn active_users_come_newest_first_with_paging() {
    let mut store = UserStore::new();
    store.create_user(1, "a@x.com", "ua", "h", 100).unwrap();
    store.create_user(2, "b@x.com", "ub", "h", 300).unwrap();
    store.create_user(3, "c@x.com", "uc", "h", 200).unwrap();
    store.create_user(4, "d@x.com", "ud", "h", 400).unwrap();
    store.update_account_status(3, AccountStatus::Banned).unwrap();

    let all = store.find_active_users(10, 0);
    let ids: Vec<u128> = all.iter().map(|u| u.id).collect();
    assert_eq!(ids, vec![4, 2, 1]);

    let top_two = store.find_active_users(2, 0);
    let ids: Vec<u128> = top_two.iter().map(|u| u.id).collect();
    assert_eq!(ids, vec![4, 2]);

    let after_one = store.find_active_users(2, 1);
    let ids: Vec<u128> = after_one.iter().map(|u| u.id).collect();
    assert_eq!(ids, vec![2, 1]);

    assert!(store.find_active_users(5, 3).is_empty());
}
