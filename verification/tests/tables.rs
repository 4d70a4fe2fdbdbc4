use smart_meter_backend::models::{BaseUser, Frame, User};
use smart_meter_backend::sql_actions::{
    add_frame, delete_user, get_frames, get_user_from_baseuser, get_user_from_id, get_users,
    get_uuids, insert_user,
};

fn user(id: &str, fname: &str, lname: &str, address: &str) -> User {
    User {
        id: id.to_string(),
        psk_hash: format!("hash-of-{id}"),
        fname: fname.to_string(),
        lname: lname.to_string(),
        address: address.to_string(),
    }
}

fn frame(uid: &str, datetime: &str, temp: f32, boiler: bool) -> Frame {
    Frame {
        uid: uid.to_string(),
        datetime: datetime.to_string(),
        temp: temp.to_bits(),
        ppm: 400.0f32.to_bits(),
        light: 700.0f32.to_bits(),
        boiler,
    }
}

fn base(fname: &str, lname: &str, address: &str) -> BaseUser {
    BaseUser { fname: fname.to_string(), lname: lname.to_string(), address: address.to_string() }
}

#[test]
fn insert_user_appends() {
    let mut users = Vec::new();
    insert_user(&mut users, user("a", "Ann", "Lee", "1 Road"));
    insert_user(&mut users, user("b", "Bob", "Ray", "2 Road"));
    assert_eq!(users.len(), 2);
    assert_eq!(users[0].fname, "Ann");
    assert_eq!(users[1].id, "b");
}

#[test]
fn add_frame_appends() {
    let mut frames = Vec::new();
    add_frame(&mut frames, frame("a", "t1", 20.0, false));
    add_frame(&mut frames, frame("a", "t2", 21.0, true));
    add_frame(&mut frames, frame("b", "t1", 22.0, true));
    assert_eq!(frames.len(), 3);
    assert_eq!(f32::from_bits(frames[1].temp), 21.0);
    assert_eq!(frames[2].uid, "b");
}

#[test]
fn get_uuids_lists_ids_in_order() {
    let users = vec![user("x", "A", "B", "C"), user("y", "D", "E", "F")];
    assert_eq!(get_uuids(&users), vec!["x".to_string(), "y".to_string()]);
    assert!(get_uuids(&Vec::new()).is_empty());
}

#[test]
fn get_users_drops_ids_and_hashes() {
    let users = vec![user("x", "A", "B", "C"), user("y", "D", "E", "F")];
    assert_eq!(get_users(&users), vec![base("A", "B", "C"), base("D", "E", "F")]);
}

#[test]
fn get_user_from_baseuser_finds_the_first_match() {
    let users = vec![
        user("x", "A", "B", "C"),
        user("y", "A", "B", "D"),
        user("z", "A", "B", "D"),
    ];
    assert_eq!(get_user_from_baseuser(&users, &base("A", "B", "D")).id, "y");
    assert_eq!(get_user_from_baseuser(&users, &base("A", "B", "C")).id, "x");
}

#[test]
fn get_user_from_id_finds_the_user() {
    let users = vec![user("x", "A", "B", "C"), user("y", "D", "E", "F")];
    assert_eq!(get_user_from_id(&users, &"y".to_string()), user("y", "D", "E", "F"));
    assert_eq!(get_user_from_id(&users, &"x".to_string()), user("x", "A", "B", "C"));
}

#[test]
fn get_frames_keeps_one_users_readings_in_order() {
    let frames = vec![
        frame("a", "t1", 1.0, false),
        frame("b", "t1", 2.0, false),
        frame("a", "t2", 3.0, true),
    ];
    let got = get_frames(&frames, &"a".to_string());
    assert_eq!(got, vec![frame("a", "t1", 1.0, false), frame("a", "t2", 3.0, true)]);
    assert!(get_frames(&frames, &"c".to_string()).is_empty());
}

#[test]
fn delete_user_removes_the_user_and_its_readings_only() {
    let mut users = vec![user("a", "A", "B", "C"), user("b", "D", "E", "F")];
    let mut frames = vec![
        frame("a", "t1", 1.0, false),
        frame("b", "t1", 2.0, false),
        frame("a", "t2", 3.0, true),
    ];
    delete_user(&mut users, &mut frames, &"a".to_string());
    assert_eq!(users, vec![user("b", "D", "E", "F")]);
    assert_eq!(frames, vec![frame("b", "t1", 2.0, false)]);
    delete_user(&mut users, &mut frames, &"zzz".to_string());
    assert_eq!(users.len(), 1);
    assert_eq!(frames.len(), 1);
}
