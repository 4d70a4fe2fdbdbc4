use smart_meter_backend::handlers::{
    create_user, delete_user, get_uuid, push, push_at, register_user, CreateReply, DeleteReply,
    PushReply, UuidReply,
};
use smart_meter_backend::models::{FrameIn, User, UserIn};
use smart_meter_backend::readings::{average_boiler, get_list_data};
use smart_meter_backend::sql_actions::{get_frames, get_user_from_id, get_uuids, Database};

fn form(fname: &str, password: &str) -> UserIn {
    UserIn {
        fname: fname.to_string(),
        lname: "Smith".to_string(),
        address: "12 High Street".to_string(),
        password: password.to_string(),
    }
}

fn reading(uid: &str, temp: f32, boiler: bool) -> FrameIn {
    FrameIn {
        uid: uid.to_string(),
        temp: temp.to_bits(),
        ppm: 192.0f32.to_bits(),
        light: 700.0f32.to_bits(),
        boiler,
    }
}

fn created_id(r: CreateReply) -> String {
    match r {
        CreateReply::Created(id) => id,
        other => panic!("expected Created, got {other:?}"),
    }
}

#[test]
fn new_ids_are_distinct_hyphenated_uuids() {
    let mut db = Database::new();
    let a = created_id(create_user(&mut db, form("Ann", "pw")));
    let b = created_id(create_user(&mut db, form("Bob", "pw")));
    assert_eq!(a.len(), 36);
    assert_eq!(a.as_bytes()[14], b'4');
    assert_eq!(a.as_bytes()[8], b'-');
    assert_eq!(a.as_bytes()[13], b'-');
    assert_eq!(a.as_bytes()[18], b'-');
    assert_eq!(a.as_bytes()[23], b'-');
    assert!(matches!(a.as_bytes()[19], b'8' | b'9' | b'a' | b'b'));
    assert!(a.chars().all(|c| c == '-' || c.is_ascii_digit() || ('a'..='f').contains(&c)));
    assert_ne!(a, b);
}

#[test]
fn stored_hash_is_an_argon2_phc_string() {
    let mut db = Database::new();
    let a = created_id(create_user(&mut db, form("Ann", "hunter42")));
    let b = created_id(create_user(&mut db, form("Bob", "hunter42")));
    let ha = get_user_from_id(&db.users, &a).psk_hash;
    let hb = get_user_from_id(&db.users, &b).psk_hash;
    assert!(ha.starts_with("$argon2id$"));
    assert!(!ha.contains("hunter42"));
    // each account gets its own salt
    assert_ne!(ha, hb);
}

#[test]
fn created_user_is_stored_and_its_id_is_returned() {
    let mut db = Database::new();
    let id = created_id(create_user(&mut db, form("Ann", "pw1")));
    assert_eq!(id.len(), 36);
    let stored = get_user_from_id(&db.users, &id);
    assert_eq!(stored.fname, "Ann");
    assert_ne!(stored.psk_hash, "pw1");
    match get_uuid(&db, &form("Ann", "pw1")) {
        UuidReply::Found(found) => assert_eq!(found, id),
        other => panic!("expected Found, got {other:?}"),
    }
}

#[test]
fn second_creation_conflicts_with_the_first_id() {
    let mut db = Database::new();
    let id = created_id(create_user(&mut db, form("Ann", "pw1")));
    match create_user(&mut db, form("Ann", "other password")) {
        CreateReply::Conflict(existing) => assert_eq!(existing, id),
        other => panic!("expected Conflict, got {other:?}"),
    }
    assert_eq!(db.users.len(), 1);
}

#[test]
fn register_user_reports_each_outcome() {
    let mut db = Database::new();
    let r = register_user(&mut db, form("Ann", "pw"), Err("bad salt".to_string()), "id-1".to_string());
    assert!(matches!(r, CreateReply::HashFailed(m) if m == "bad salt"));
    assert!(db.users.is_empty());
    let r = register_user(&mut db, form("Ann", "pw"), Ok("h1".to_string()), "id-1".to_string());
    assert!(matches!(r, CreateReply::Created(ref id) if id == "id-1"));
    assert_eq!(
        db.users,
        vec![User {
            id: "id-1".to_string(),
            psk_hash: "h1".to_string(),
            fname: "Ann".to_string(),
            lname: "Smith".to_string(),
            address: "12 High Street".to_string(),
        }]
    );
    let r = register_user(&mut db, form("Bob", "pw"), Ok("h2".to_string()), "id-1".to_string());
    assert!(matches!(r, CreateReply::Duplicate));
    let r = register_user(&mut db, form("Ann", "pw2"), Ok("h3".to_string()), "id-2".to_string());
    assert!(matches!(r, CreateReply::Conflict(ref id) if id == "id-1"));
    assert_eq!(db.users.len(), 1);
}

#[test]
fn wrong_password_is_refused() {
    let mut db = Database::new();
    let id = created_id(create_user(&mut db, form("Ann", "right")));
    match get_uuid(&db, &form("Ann", "wrong")) {
        UuidReply::Unauthorized(who, _) => assert_eq!(who, id),
        other => panic!("expected Unauthorized, got {other:?}"),
    }
    match delete_user(&mut db, &form("Ann", "wrong")) {
        DeleteReply::Forbidden(who, _) => assert_eq!(who, id),
        other => panic!("expected Forbidden, got {other:?}"),
    }
    assert_eq!(db.users.len(), 1);
}

#[test]
fn unknown_account_is_reported() {
    let mut db = Database::new();
    assert!(matches!(delete_user(&mut db, &form("Nobody", "pw")), DeleteReply::NotFound));
}

#[test]
fn malformed_stored_hash_is_reported() {
    let mut db = Database::new();
    let r = register_user(&mut db, form("Ann", "pw"), Ok("garbage".to_string()), "id-1".to_string());
    assert!(matches!(r, CreateReply::Created(_)));
    assert!(matches!(get_uuid(&db, &form("Ann", "pw")), UuidReply::MalformedHash(_)));
    assert!(matches!(delete_user(&mut db, &form("Ann", "pw")), DeleteReply::MalformedHash(_)));
    assert_eq!(db.users.len(), 1);
}

#[test]
fn readings_need_a_known_user() {
    let mut db = Database::new();
    assert_eq!(push(&mut db, reading("ghost", 20.0, false)), PushReply::UnknownUser);
    assert!(db.frames.is_empty());
    let id = created_id(create_user(&mut db, form("Ann", "pw")));
    assert_eq!(push(&mut db, reading(&id, 20.0, false)), PushReply::Appended);
    assert_eq!(db.frames.len(), 1);
    assert_eq!(db.frames[0].uid, id);
    assert!(db.frames[0].datetime.ends_with(" UTC"));
}

#[test]
fn same_time_twice_is_a_duplicate() {
    let mut db = Database::new();
    let id = created_id(create_user(&mut db, form("Ann", "pw")));
    assert_eq!(push_at(&mut db, reading(&id, 20.0, false), "t1".to_string()), PushReply::Appended);
    assert_eq!(push_at(&mut db, reading(&id, 21.0, true), "t1".to_string()), PushReply::Duplicate);
    assert_eq!(push_at(&mut db, reading(&id, 21.0, true), "t2".to_string()), PushReply::Appended);
    assert_eq!(db.frames.len(), 2);
}

#[test]
fn pushed_readings_are_listed_in_order() {
    let mut db = Database::new();
    let a = created_id(create_user(&mut db, form("Ann", "pw")));
    let b = created_id(create_user(&mut db, form("Bob", "pw")));
    assert_eq!(push_at(&mut db, reading(&a, 20.5, false), "t1".to_string()), PushReply::Appended);
    assert_eq!(push_at(&mut db, reading(&b, 30.0, true), "t1".to_string()), PushReply::Appended);
    assert_eq!(push_at(&mut db, reading(&a, 21.5, true), "t2".to_string()), PushReply::Appended);
    let list = get_list_data(&db, &a).unwrap();
    assert_eq!(list.datetimes, vec!["t1".to_string(), "t2".to_string()]);
    assert_eq!(list.temps, vec![20.5f32.to_bits(), 21.5f32.to_bits()]);
    assert_eq!(list.ppms, vec![192.0f32.to_bits(); 2]);
    assert_eq!(list.lights, vec![700.0f32.to_bits(); 2]);
    assert_eq!(list.boilers, vec![false, true]);
    assert!(get_list_data(&db, &"unknown".to_string()).is_none());
}

#[test]
fn boiler_average_is_the_majority() {
    let mut db = Database::new();
    let a = created_id(create_user(&mut db, form("Ann", "pw")));
    assert!(!average_boiler(&get_frames(&db.frames, &a)));
    push_at(&mut db, reading(&a, 1.0, true), "t1".to_string());
    push_at(&mut db, reading(&a, 1.0, false), "t2".to_string());
    assert!(average_boiler(&get_frames(&db.frames, &a)));
    push_at(&mut db, reading(&a, 1.0, false), "t3".to_string());
    assert!(!average_boiler(&get_frames(&db.frames, &a)));
    push_at(&mut db, reading(&a, 1.0, true), "t4".to_string());
    push_at(&mut db, reading(&a, 1.0, true), "t5".to_string());
    assert!(average_boiler(&get_frames(&db.frames, &a)));
}

#[test]
fn deleting_an_account_removes_its_readings_only() {
    let mut db = Database::new();
    let a = created_id(create_user(&mut db, form("Ann", "pwa")));
    let b = created_id(create_user(&mut db, form("Bob", "pwb")));
    push_at(&mut db, reading(&a, 1.0, true), "t1".to_string());
    push_at(&mut db, reading(&b, 2.0, true), "t1".to_string());
    push_at(&mut db, reading(&a, 3.0, true), "t2".to_string());
    match delete_user(&mut db, &form("Ann", "pwa")) {
        DeleteReply::Deleted(id) => assert_eq!(id, a),
        other => panic!("expected Deleted, got {other:?}"),
    }
    assert!(!get_uuids(&db.users).contains(&a));
    assert!(get_frames(&db.frames, &a).is_empty());
    assert_eq!(get_frames(&db.frames, &b).len(), 1);
    assert_eq!(get_user_from_id(&db.users, &b).fname, "Bob");
    assert!(get_list_data(&db, &a).is_none());
}

#[test]
fn create_then_delete_restores_the_tables() {
    let mut db = Database::new();
    let b = created_id(create_user(&mut db, form("Bob", "pwb")));
    push_at(&mut db, reading(&b, 2.0, true), "t1".to_string());
    let users_before = db.users.clone();
    let frames_before = db.frames.clone();
    let a = created_id(create_user(&mut db, form("Ann", "pwa")));
    match delete_user(&mut db, &form("Ann", "pwa")) {
        DeleteReply::Deleted(id) => assert_eq!(id, a),
        other => panic!("expected Deleted, got {other:?}"),
    }
    assert_eq!(db.users, users_before);
    assert_eq!(db.frames, frames_before);
}
