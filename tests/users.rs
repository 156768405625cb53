use myapp::error::AppError;
use myapp::handlers::user::{self as handlers, parse_id, ReplyBody};
use myapp::models::{CreateUserInput, UpdateUserInput, User};
use myapp::services::user::{
    check_email_owner, check_new_email, create, create_with, delete, rows_outcome, find_by_email,
    find_by_id, storage_error, update, update_with,
};
use myapp::store::UserStore;

fn input(email: &str, name: &str) -> CreateUserInput {
    CreateUserInput { email: email.to_string(), name: name.to_string() }
}

fn hyphenated(id: u128) -> String {
    let h = format!("{:032x}", id);
    format!("{}-{}-{}-{}-{}", &h[0..8], &h[8..12], &h[12..16], &h[16..20], &h[20..32])
}

#[test]
fn create_with_fresh_email_gives_new_id() {
    let mut db = UserStore::new();
    let a = create(&mut db, input("a@x.com", "A")).unwrap();
    let b = create(&mut db, input("b@x.com", "B")).unwrap();
    assert_ne!(a.id, b.id);
    assert_eq!(a.email, "a@x.com");
    assert_eq!(a.name, "A");
    assert_eq!(a.created_at, a.updated_at);
    assert_eq!((a.id >> 76) & 0xf, 4);
    assert_eq!(db.len(), 2);
}

#[test]
fn unknown_id_is_not_found_everywhere() {
    let mut db = UserStore::new();
    create_with(&mut db, input("a@x.com", "A"), 1, 10).unwrap();
    assert!(matches!(find_by_id(&db, 2), Err(AppError::NotFound(m)) if m == "user"));
    let upd = UpdateUserInput { email: None, name: Some("B".to_string()) };
    assert!(matches!(update_with(&mut db, 2, upd, 20), Err(AppError::NotFound(m)) if m == "user"));
    assert!(matches!(delete(&mut db, 2), Err(AppError::NotFound(m)) if m == "user"));
    assert_eq!(db.len(), 1);
}

#[test]
fn taken_email_conflicts_without_insert() {
    let mut db = UserStore::new();
    create_with(&mut db, input("a@x.com", "A"), 1, 10).unwrap();
    let r = create_with(&mut db, input("a@x.com", "Other"), 2, 11);
    assert!(matches!(r, Err(AppError::Conflict(m)) if m == "email already exists"));
    assert_eq!(db.len(), 1);
    assert!(find_by_id(&db, 2).is_err());
}

#[test]
fn taken_id_is_refused_by_the_table() {
    let mut db = UserStore::new();
    create_with(&mut db, input("a@x.com", "A"), 1, 10).unwrap();
    let r = create_with(&mut db, input("b@x.com", "B"), 1, 11);
    assert!(matches!(r, Err(AppError::Database(_))));
    assert_eq!(db.len(), 1);
}

#[test]
fn name_only_update_keeps_email_and_advances_time() {
    let mut db = UserStore::new();
    let u = create_with(&mut db, input("a@x.com", "A"), 7, 100).unwrap();
    let upd = UpdateUserInput { email: None, name: Some("B".to_string()) };
    let v = update_with(&mut db, 7, upd, 250).unwrap();
    assert_eq!(v.email, "a@x.com");
    assert_eq!(v.name, "B");
    assert_eq!(v.created_at, 100);
    assert_eq!(v.updated_at, 250);
    assert!(v.updated_at > u.updated_at);
    assert_eq!(find_by_id(&db, 7).unwrap(), v);
}

#[test]
fn update_email_conflicts_only_with_other_users() {
    let mut db = UserStore::new();
    create_with(&mut db, input("a@x.com", "A"), 1, 10).unwrap();
    create_with(&mut db, input("b@x.com", "B"), 2, 10).unwrap();
    let clash = UpdateUserInput { email: Some("b@x.com".to_string()), name: None };
    let r = update_with(&mut db, 1, clash, 20);
    assert!(matches!(r, Err(AppError::Conflict(m)) if m == "email already exists"));
    assert_eq!(find_by_id(&db, 1).unwrap().email, "a@x.com");
    let same = UpdateUserInput { email: Some("a@x.com".to_string()), name: Some("A2".to_string()) };
    let v = update_with(&mut db, 1, same, 30).unwrap();
    assert_eq!(v.email, "a@x.com");
    assert_eq!(v.name, "A2");
    let fresh = UpdateUserInput { email: Some("c@x.com".to_string()), name: None };
    let w = update_with(&mut db, 1, fresh, 40).unwrap();
    assert_eq!(w.email, "c@x.com");
    assert_eq!(w.name, "A2");
    assert!(find_by_email(&db, "a@x.com").is_none());
}

#[test]
fn update_with_clock_stamps_the_row() {
    let mut db = UserStore::new();
    let u = create(&mut db, input("a@x.com", "A")).unwrap();
    let upd = UpdateUserInput { email: None, name: Some("Z".to_string()) };
    let v = update(&mut db, u.id, upd).unwrap();
    assert_eq!(v.id, u.id);
    assert_eq!(v.email, "a@x.com");
    assert_eq!(v.name, "Z");
    assert_eq!(v.created_at, u.created_at);
    assert!(v.updated_at >= u.created_at);
}

#[test]
fn create_then_find_round_trip() {
    let mut db = UserStore::new();
    let u = create(&mut db, input("a@x.com", "A")).unwrap();
    let found = find_by_id(&db, u.id).unwrap();
    assert_eq!(found, u);
    assert_eq!(find_by_email(&db, "a@x.com"), Some(u));
}

#[test]
fn delete_twice_is_not_found_the_second_time() {
    let mut db = UserStore::new();
    create_with(&mut db, input("a@x.com", "A"), 5, 10).unwrap();
    assert!(delete(&mut db, 5).is_ok());
    assert!(matches!(delete(&mut db, 5), Err(AppError::NotFound(m)) if m == "user"));
    assert_eq!(db.len(), 0);
}

#[test]
fn decisions_for_storage_results() {
    let other = User { id: 2, email: "a@x.com".to_string(), name: "A".to_string(), created_at: 1, updated_at: 1 };
    assert!(check_new_email(&None).is_ok());
    assert!(matches!(check_new_email(&Some(other.clone())), Err(AppError::Conflict(_))));
    assert!(check_email_owner(2, &Some(other.clone())).is_ok());
    assert!(matches!(check_email_owner(3, &Some(other)), Err(AppError::Conflict(_))));
    assert!(check_email_owner(3, &None).is_ok());
    assert!(matches!(rows_outcome(0), Err(AppError::NotFound(m)) if m == "user"));
    assert!(rows_outcome(1).is_ok());
    assert!(matches!(storage_error(true, "dup".to_string()), AppError::Conflict(m) if m == "email already exists"));
    assert!(matches!(storage_error(false, "down".to_string()), AppError::Database(m) if m == "down"));
}

#[test]
fn post_then_post_same_email() {
    let mut db = UserStore::new();
    let r = handlers::create(&mut db, input("a@x.com", "A"));
    assert_eq!(r.status, 201);
    let id = match r.body {
        ReplyBody::User(u) => u.id,
        other => panic!("unexpected body {:?}", other),
    };
    assert!(find_by_id(&db, id).is_ok());
    let r2 = handlers::create(&mut db, input("a@x.com", "A"));
    assert_eq!(r2.status, 409);
    assert!(matches!(r2.body, ReplyBody::Error(m) if m == "email already exists"));
}

#[test]
fn get_unknown_id_is_404_user() {
    let db = UserStore::new();
    let r = handlers::get(&db, "550e8400-e29b-41d4-a716-446655440000");
    assert_eq!(r.status, 404);
    assert!(matches!(r.body, ReplyBody::Error(m) if m == "user"));
}

#[test]
fn malformed_id_is_400() {
    let mut db = UserStore::new();
    assert_eq!(handlers::get(&db, "not-an-id").status, 400);
    assert_eq!(handlers::delete(&mut db, "42").status, 400);
    let upd = UpdateUserInput { email: None, name: None };
    assert_eq!(handlers::update(&mut db, "zz", upd).status, 400);
}

#[test]
fn put_name_keeps_email() {
    let mut db = UserStore::new();
    let u = create(&mut db, input("a@x.com", "A")).unwrap();
    let upd = UpdateUserInput { email: None, name: Some("B".to_string()) };
    let r = handlers::update(&mut db, &hyphenated(u.id), upd);
    assert_eq!(r.status, 200);
    match r.body {
        ReplyBody::User(v) => {
            assert_eq!(v.email, "a@x.com");
            assert_eq!(v.name, "B");
        }
        other => panic!("unexpected body {:?}", other),
    }
}

#[test]
fn delete_then_get_is_404() {
    let mut db = UserStore::new();
    let u = create(&mut db, input("a@x.com", "A")).unwrap();
    let path = hyphenated(u.id);
    let r = handlers::delete(&mut db, &path);
    assert_eq!(r.status, 204);
    assert!(matches!(r.body, ReplyBody::Empty));
    let g = handlers::get(&db, &path);
    assert_eq!(g.status, 404);
}

#[test]
fn parse_id_reads_uuid_text() {
    assert_eq!(parse_id("550e8400-e29b-41d4-a716-446655440000").unwrap(), 0x550e8400e29b41d4a716446655440000u128);
    assert_eq!(parse_id("550e8400e29b41d4a716446655440000").unwrap(), 0x550e8400e29b41d4a716446655440000u128);
    assert!(matches!(parse_id("550e8400"), Err(AppError::Validation(_))));
}

#[test]
fn id_of_deleted_user_is_never_given_out_again() {
    let mut db = UserStore::new();
    create_with(&mut db, input("a@x.com", "A"), 9, 10).unwrap();
    delete(&mut db, 9).unwrap();
    let r = create_with(&mut db, input("b@x.com", "B"), 9, 20);
    assert!(matches!(r, Err(AppError::Database(_))));
    assert_eq!(db.len(), 0);
    assert!(create_with(&mut db, input("b@x.com", "B"), 10, 20).is_ok());
}

#[test]
fn post_fresh_email_on_empty_table_is_201() {
    let mut db = UserStore::new();
    let r = handlers::create(&mut db, input("a@x.com", "A"));
    assert_eq!(r.status, 201);
    match r.body {
        ReplyBody::User(u) => {
            assert_eq!(u.email, "a@x.com");
            assert_eq!(u.name, "A");
            assert_eq!(find_by_id(&db, u.id).unwrap(), u);
        }
        other => panic!("unexpected body {:?}", other),
    }
}

#[test]
fn stamp_never_goes_backwards() {
    let mut db = UserStore::new();
    create_with(&mut db, input("a@x.com", "A"), 3, 500).unwrap();
    let upd = UpdateUserInput { email: None, name: Some("B".to_string()) };
    let v = update_with(&mut db, 3, upd, 100).unwrap();
    assert_eq!(v.updated_at, 501);
    assert_eq!(v.created_at, 500);
    let upd = UpdateUserInput { email: None, name: Some("C".to_string()) };
    let w = update_with(&mut db, 3, upd, 501).unwrap();
    assert_eq!(w.updated_at, 502);
}

#[test]
fn rename_through_the_clock_strictly_advances() {
    let mut db = UserStore::new();
    let u = create(&mut db, input("a@x.com", "A")).unwrap();
    let upd = UpdateUserInput { email: None, name: Some("B".to_string()) };
    let v = update(&mut db, u.id, upd).unwrap();
    assert!(v.updated_at > u.updated_at);
    assert_eq!(v.email, u.email);
}

#[test]
fn error_replies_carry_the_service_message() {
    let mut db = UserStore::new();
    create_with(&mut db, input("a@x.com", "A"), 1, 10).unwrap();
    create_with(&mut db, input("b@x.com", "B"), 2, 10).unwrap();
    let clash = UpdateUserInput { email: Some("b@x.com".to_string()), name: None };
    let r = handlers::update(&mut db, &hyphenated(1), clash);
    assert_eq!(r.status, 409);
    assert!(matches!(r.body, ReplyBody::Error(m) if m == "email already exists"));
    let upd = UpdateUserInput { email: None, name: None };
    let r = handlers::update(&mut db, &hyphenated(77), upd);
    assert_eq!(r.status, 404);
    assert!(matches!(r.body, ReplyBody::Error(m) if m == "user"));
    let r = handlers::get(&db, "nope");
    assert!(matches!(r.body, ReplyBody::Error(m) if m == "invalid id"));
}
