//! What the server decides for each request: the changes to its tables and the answer.
use vstd::prelude::*;
use crate::clock_ids::{is_utc_clock_text, is_uuid_v4_text, new_user_id, now_utc_string};
use crate::laws::{lemma_delete_keeps_wf, lemma_push_keeps_wf, lemma_register_keeps_wf};
use vstd::utf8::encode_utf8;
use crate::models::{frame_of, user_of, BaseUser, Frame, FrameIn, User, UserIn};
use crate::password::{
    argon2_hash_result, argon2_verify_result, generate_salt, hash_password, parse_password_hash,
    phc_parse_result, verify_password, view_str_result, has_argon2id_prefix, MAX_PASSWORD_BYTES,
};
use crate::sql_actions::{
    add_frame, bases_of, delete_user as delete_rows, find_frame_key, frames_without,
    get_user_from_baseuser, get_users, get_uuids, has_base, has_frame_key, has_user_id, ids_of,
    insert_user, user_with_base, users_without, Database, Tables,
};

verus! {

broadcast use vstd::seq_lib::group_seq_properties;

/// The answer to a new reading.
#[derive(Debug, Clone, Copy, PartialEq, Eq, Structural)]
pub enum PushReply {
    /// The reading was stored.
    Appended,
    /// No user has the reading's id; nothing was stored.
    UnknownUser,
    /// A reading of that user with the same time is stored already; nothing was stored.
    /// The table would refuse the row, and the server stops.
    Duplicate,
}

/// The answer to a new account.
#[derive(Debug)]
pub enum CreateReply {
    /// The account was stored under this new id.
    Created(String),
    /// An account with these names and address exists already, under this id.
    Conflict(String),
    /// The password could not be hashed, for this reason; nothing was stored, and the
    /// server stops.
    HashFailed(String),
    /// The new id is taken already; nothing was stored. The table would refuse the row,
    /// and the server stops.
    Duplicate,
}

/// The answer to a request to delete an account.
#[derive(Debug)]
pub enum DeleteReply {
    /// No account has these names and address.
    NotFound,
    /// The account with this id and its readings were deleted.
    Deleted(String),
    /// The password is wrong for the account with this id, for this reason.
    Forbidden(String, String),
    /// The stored password hash does not parse, for this reason; the server stops.
    MalformedHash(String),
}

/// The answer to a request for the id of an account.
#[derive(Debug)]
pub enum UuidReply {
    /// The password is right; this is the id.
    Found(String),
    /// The password is wrong for the account with this id, for this reason.
    Unauthorized(String, String),
    /// The stored password hash does not parse, for this reason; the server stops.
    MalformedHash(String),
}

/// A `DeleteReply` with its texts seen as sequences of characters.
pub enum DeleteReplyView {
    NotFound,
    Deleted(Seq<char>),
    Forbidden(Seq<char>, Seq<char>),
    MalformedHash(Seq<char>),
}

/// A `UuidReply` with its texts seen as sequences of characters.
pub enum UuidReplyView {
    Found(Seq<char>),
    Unauthorized(Seq<char>, Seq<char>),
    MalformedHash(Seq<char>),
}

impl View for DeleteReply {
    type V = DeleteReplyView;

    open spec fn view(&self) -> DeleteReplyView {
        match self {
            DeleteReply::NotFound => DeleteReplyView::NotFound,
            DeleteReply::Deleted(id) => DeleteReplyView::Deleted(id@),
            DeleteReply::Forbidden(id, m) => DeleteReplyView::Forbidden(id@, m@),
            DeleteReply::MalformedHash(m) => DeleteReplyView::MalformedHash(m@),
        }
    }
}

impl View for UuidReply {
    type V = UuidReplyView;

    open spec fn view(&self) -> UuidReplyView {
        match self {
            UuidReply::Found(id) => UuidReplyView::Found(id@),
            UuidReply::Unauthorized(id, m) => UuidReplyView::Unauthorized(id@, m@),
            UuidReply::MalformedHash(m) => UuidReplyView::MalformedHash(m@),
        }
    }
}

/// A new reading `frame` arriving at the time `datetime`: it is stored when its user
/// exists and no reading of that user has the same time.
pub open spec fn push_model(t: Tables, frame: FrameIn, datetime: String) -> (Tables, PushReply) {
    let f = frame_of(frame, datetime);
    if !has_user_id(t.users, frame.uid@) {
        (t, PushReply::UnknownUser)
    } else if has_frame_key(t.frames, f) {
        (t, PushReply::Duplicate)
    } else {
        (Tables { users: t.users, frames: t.frames.push(f) }, PushReply::Appended)
    }
}

/// A new account `form`, with `hashed` the outcome of hashing its password and `new_id`
/// a fresh id: it is stored unless the hashing failed, an account with the same names and
/// address exists (whose id is the answer), or the id is taken.
pub open spec fn register_model(
    t: Tables,
    form: UserIn,
    hashed: Result<String, String>,
    new_id: String,
) -> (Tables, CreateReply) {
    match hashed {
        Err(m) => (t, CreateReply::HashFailed(m)),
        Ok(h) => {
            if has_base(t.users, form.base()) {
                (t, CreateReply::Conflict(user_with_base(t.users, form.base()).unwrap().id))
            } else if has_user_id(t.users, new_id@) {
                (t, CreateReply::Duplicate)
            } else {
                (
                    Tables { users: t.users.push(user_of(form, new_id, h)), frames: t.frames },
                    CreateReply::Created(new_id),
                )
            }
        },
    }
}

/// A request to delete the account `form`: with the right password, the account and all
/// its readings go.
pub open spec fn delete_model(t: Tables, form: UserIn) -> (Tables, DeleteReplyView) {
    if !has_base(t.users, form.base()) {
        (t, DeleteReplyView::NotFound)
    } else {
        let u = user_with_base(t.users, form.base()).unwrap();
        match phc_parse_result(u.psk_hash@) {
            Err(m) => (t, DeleteReplyView::MalformedHash(m)),
            Ok(()) => match argon2_verify_result(form.password@, u.psk_hash@) {
                Ok(()) => (
                    Tables {
                        users: users_without(t.users, u.id@),
                        frames: frames_without(t.frames, u.id@),
                    },
                    DeleteReplyView::Deleted(u.id@),
                ),
                Err(m) => (t, DeleteReplyView::Forbidden(u.id@, m)),
            },
        }
    }
}

/// A request for the id of the account `form`, which exists: given with the right
/// password.
pub open spec fn uuid_model(t: Tables, form: UserIn) -> UuidReplyView {
    let u = user_with_base(t.users, form.base()).unwrap();
    match phc_parse_result(u.psk_hash@) {
        Err(m) => UuidReplyView::MalformedHash(m),
        Ok(()) => match argon2_verify_result(form.password@, u.psk_hash@) {
            Ok(()) => UuidReplyView::Found(u.id@),
            Err(m) => UuidReplyView::Unauthorized(u.id@, m),
        },
    }
}

/// Whether the text `id` is in the list.
fn contains_id(list: &Vec<String>, id: &String) -> (r: bool)
    ensures
        r == exists|i: int| 0 <= i < list@.len() && (#[trigger] list@[i])@ == id@,
{
    let mut i: usize = 0;
    while i < list.len()
        invariant
            i <= list@.len(),
            forall|j: int| 0 <= j < i ==> (#[trigger] list@[j])@ != id@,
        decreases list@.len() - i,
    {
        if list[i] == *id {
            return true;
        }
        i = i + 1;
    }
    false
}

/// Whether the list holds the names and address of `b`.
fn contains_base_user(list: &Vec<BaseUser>, b: &BaseUser) -> (r: bool)
    ensures
        r == exists|i: int| 0 <= i < list@.len() && (#[trigger] list@[i]).same_as(*b),
{
    let mut i: usize = 0;
    while i < list.len()
        invariant
            i <= list@.len(),
            forall|j: int| 0 <= j < i ==> !(#[trigger] list@[j]).same_as(*b),
        decreases list@.len() - i,
    {
        let x = &list[i];
        if x.fname == b.fname && x.lname == b.lname && x.address == b.address {
            return true;
        }
        i = i + 1;
    }
    false
}

/// Whether some user has the id `id`, as the list of all ids shows it.
fn user_exists(db: &Database, id: &String) -> (r: bool)
    ensures
        r == has_user_id(db@.users, id@),
{
    let uuids = get_uuids(&db.users);
    let r = contains_id(&uuids, id);
    proof {
        assert(uuids@ == ids_of(db@.users));
        if r {
            let i = choose|i: int| 0 <= i < uuids@.len() && (#[trigger] uuids@[i])@ == id@;
            assert(db@.users[i].id@ == id@);
        }
        if has_user_id(db@.users, id@) {
            let i = choose|i: int| 0 <= i < db@.users.len() && db@.users[i].id@ == id@;
            assert(uuids@[i]@ == id@);
        }
    }
    r
}

/// Whether some user has the names and address of `b`, as the list of all users shows it.
fn base_user_exists(db: &Database, b: &BaseUser) -> (r: bool)
    ensures
        r == has_base(db@.users, *b),
{
    let uservec = get_users(&db.users);
    let r = contains_base_user(&uservec, b);
    proof {
        assert(uservec@ == bases_of(db@.users));
        if r {
            let i = choose|i: int| 0 <= i < uservec@.len() && (#[trigger] uservec@[i]).same_as(*b);
            assert(db@.users[i].matches_base(*b));
        }
        if has_base(db@.users, *b) {
            let i = choose|i: int| 0 <= i < db@.users.len() && db@.users[i].matches_base(*b);
            assert(uservec@[i].same_as(*b));
        }
    }
    r
}

/// Stores the reading `frame`, received at `datetime`, when its user exists.
pub fn push_at(db: &mut Database, frame: FrameIn, datetime: String) -> (r: PushReply)
    ensures
        (final(db)@, r) == push_model(old(db)@, frame, datetime),
        old(db)@.wf() ==> final(db)@.wf(),
{
    proof {
        if db@.wf() {
            lemma_push_keeps_wf(db@, frame, datetime);
        }
    }
    if !user_exists(db, &frame.uid) {
        return PushReply::UnknownUser;
    }
    let final_frame = Frame {
        uid: frame.uid,
        datetime,
        temp: frame.temp,
        ppm: frame.ppm,
        light: frame.light,
        boiler: frame.boiler,
    };
    if find_frame_key(&db.frames, &final_frame).is_some() {
        return PushReply::Duplicate;
    }
    add_frame(&mut db.frames, final_frame);
    PushReply::Appended
}

/// Stores the reading `frame`, stamped with the server's clock, when its user exists.
/// The stamp is the clock's whole text: a date and a time of day, in UTC.
pub fn push(db: &mut Database, frame: FrameIn) -> (r: PushReply)
    ensures
        exists|datetime: String|
            datetime@.len() >= 4 && datetime@.subrange(datetime@.len() - 4, datetime@.len() as int)
                == " UTC"@ && is_utc_clock_text(datetime@)
                && (final(db)@, r) == push_model(old(db)@, frame, datetime),
        old(db)@.wf() ==> final(db)@.wf(),
{
    let utcstr = now_utc_string();
    push_at(db, frame, utcstr)
}

/// Stores the account `form` under `new_id` with the password hash that `hashed` holds,
/// unless hashing failed, the account exists, or the id is taken.
pub fn register_user(db: &mut Database, form: UserIn, hashed: Result<String, String>, new_id: String)
    -> (r: CreateReply)
    ensures
        (final(db)@, r) == register_model(old(db)@, form, hashed, new_id),
        old(db)@.wf() ==> final(db)@.wf(),
{
    proof {
        if db@.wf() {
            lemma_register_keeps_wf(db@, form, hashed, new_id);
        }
    }
    let password_hash = match hashed {
        Ok(h) => h,
        Err(m) => {
            return CreateReply::HashFailed(m);
        },
    };
    let baseuser = BaseUser { fname: form.fname, lname: form.lname, address: form.address };
    if base_user_exists(db, &baseuser) {
        let existing = get_user_from_baseuser(&db.users, &baseuser);
        return CreateReply::Conflict(existing.id);
    }
    if user_exists(db, &new_id) {
        return CreateReply::Duplicate;
    }
    let user = User {
        id: new_id.clone(),
        psk_hash: password_hash,
        address: baseuser.address,
        fname: baseuser.fname,
        lname: baseuser.lname,
    };
    insert_user(&mut db.users, user);
    CreateReply::Created(new_id)
}

/// Creates the account `form`: hashes its password with a fresh salt, draws a fresh id
/// and stores it, unless an account with the same names and address exists. The stored
/// hash is a PHC string of Argon2id that parses, and the password verifies against it;
/// hashing fails only for a password longer than `MAX_PASSWORD_BYTES` bytes of UTF-8.
pub fn create_user(db: &mut Database, form: UserIn) -> (r: CreateReply)
    ensures
        exists|salt: String, hashed: Result<String, String>, new_id: String|
            view_str_result(hashed) == argon2_hash_result(form.password@, salt@)
            && (hashed matches Ok(h) ==> phc_parse_result(h@) is Ok
                && argon2_verify_result(form.password@, h@) is Ok && has_argon2id_prefix(h@))
            && is_uuid_v4_text(new_id@)
            && (final(db)@, r) == register_model(old(db)@, form, hashed, new_id),
        encode_utf8(form.password@).len() <= MAX_PASSWORD_BYTES ==> !(r is HashFailed),
        old(db)@.wf() ==> final(db)@.wf(),
{
    let salt = generate_salt();
    let hashed = hash_password(form.password.as_str(), salt.as_str());
    let new_id = new_user_id();
    register_user(db, form, hashed, new_id)
}

/// Deletes the account `form` and all its readings when the password is right.
pub fn delete_user(db: &mut Database, form: &UserIn) -> (r: DeleteReply)
    ensures
        (final(db)@, r@) == delete_model(old(db)@, *form),
        old(db)@.wf() ==> final(db)@.wf(),
{
    proof {
        if db@.wf() {
            lemma_delete_keeps_wf(db@, *form);
        }
    }
    let baseuser = BaseUser {
        fname: form.fname.clone(),
        lname: form.lname.clone(),
        address: form.address.clone(),
    };
    if !base_user_exists(db, &baseuser) {
        return DeleteReply::NotFound;
    }
    let user_full = get_user_from_baseuser(&db.users, &baseuser);
    match parse_password_hash(user_full.psk_hash.as_str()) {
        Err(m) => {
            return DeleteReply::MalformedHash(m);
        },
        Ok(()) => {},
    }
    match verify_password(form.password.as_str(), user_full.psk_hash.as_str()) {
        Ok(()) => {
            delete_rows(&mut db.users, &mut db.frames, &user_full.id);
            DeleteReply::Deleted(user_full.id)
        },
        Err(m) => DeleteReply::Forbidden(user_full.id, m),
    }
}

/// The id of the account `form`, when the password is right. The account must exist:
/// the query finds no row otherwise and the server stops.
pub fn get_uuid(db: &Database, form: &UserIn) -> (r: UuidReply)
    requires
        has_base(db@.users, form.base()),
    ensures
        r@ == uuid_model(db@, *form),
{
    let baseuser = BaseUser {
        fname: form.fname.clone(),
        lname: form.lname.clone(),
        address: form.address.clone(),
    };
    let user = get_user_from_baseuser(&db.users, &baseuser);
    match parse_password_hash(user.psk_hash.as_str()) {
        Err(m) => {
            return UuidReply::MalformedHash(m);
        },
        Ok(()) => {},
    }
    match verify_password(form.password.as_str(), user.psk_hash.as_str()) {
        Ok(()) => UuidReply::Found(user.id),
        Err(m) => UuidReply::Unauthorized(user.id, m),
    }
}

} // verus!
