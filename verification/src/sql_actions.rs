//! The two tables of the database, `users` and `frames`, and the queries and updates that
//! the server makes on them. A table is held as the rows it holds, in the order of their
//! insertion.
use vstd::prelude::*;
use crate::models::{BaseUser, Frame, User};
use crate::seq_facts::{lemma_filter_first, lemma_filter_take_succ, pairwise};

verus! {

broadcast use vstd::seq_lib::group_seq_properties;

/// The rows of the `users` table and of the `frames` table.
pub struct Database {
    pub users: Vec<User>,
    pub frames: Vec<Frame>,
}

/// The contents of a `Database`.
pub struct Tables {
    pub users: Seq<User>,
    pub frames: Seq<Frame>,
}

impl View for Database {
    type V = Tables;

    open spec fn view(&self) -> Tables {
        Tables { users: self.users@, frames: self.frames@ }
    }
}

/// The user has the id `id`.
pub open spec fn id_is(id: Seq<char>) -> spec_fn(User) -> bool {
    |u: User| u.id@ == id
}

/// The user has another id than `id`.
pub open spec fn id_is_not(id: Seq<char>) -> spec_fn(User) -> bool {
    |u: User| u.id@ != id
}

/// The user has the names and address of `b`.
pub open spec fn base_is(b: BaseUser) -> spec_fn(User) -> bool {
    |u: User| u.matches_base(b)
}

/// The reading belongs to the user `uid`.
pub open spec fn uid_is(uid: Seq<char>) -> spec_fn(Frame) -> bool {
    |f: Frame| f.uid@ == uid
}

/// The reading belongs to another user than `uid`.
pub open spec fn uid_is_not(uid: Seq<char>) -> spec_fn(Frame) -> bool {
    |f: Frame| f.uid@ != uid
}

/// Two users have different ids.
pub open spec fn ids_differ() -> spec_fn(User, User) -> bool {
    |a: User, b: User| a.id@ != b.id@
}

/// Two users differ in their names or address.
pub open spec fn bases_differ() -> spec_fn(User, User) -> bool {
    |a: User, b: User| !a.matches_base(b.base())
}

/// Two readings have different primary keys.
pub open spec fn keys_differ() -> spec_fn(Frame, Frame) -> bool {
    |a: Frame, b: Frame| !a.same_key(b)
}

/// Some user has the id `id`.
pub open spec fn has_user_id(users: Seq<User>, id: Seq<char>) -> bool {
    exists|i: int| 0 <= i < users.len() && users[i].id@ == id
}

/// Some user has the names and address of `b`.
pub open spec fn has_base(users: Seq<User>, b: BaseUser) -> bool {
    exists|i: int| 0 <= i < users.len() && users[i].matches_base(b)
}

/// Some reading has the primary key of `f`.
pub open spec fn has_frame_key(frames: Seq<Frame>, f: Frame) -> bool {
    exists|i: int| 0 <= i < frames.len() && frames[i].same_key(f)
}

/// The first item of a sequence, if it has one.
pub open spec fn first_of<A>(s: Seq<A>) -> Option<A> {
    if s.len() > 0 {
        Some(s[0])
    } else {
        None
    }
}

/// The ids of the users, in order.
pub open spec fn ids_of(users: Seq<User>) -> Seq<String> {
    users.map_values(|u: User| u.id)
}

/// The names and addresses of the users, in order.
pub open spec fn bases_of(users: Seq<User>) -> Seq<BaseUser> {
    users.map_values(|u: User| u.base())
}

/// The first user with the id `id`, if any.
pub open spec fn user_with_id(users: Seq<User>, id: Seq<char>) -> Option<User> {
    first_of(users.filter(id_is(id)))
}

/// The first user with the names and address of `b`, if any.
pub open spec fn user_with_base(users: Seq<User>, b: BaseUser) -> Option<User> {
    first_of(users.filter(base_is(b)))
}

/// The readings of the user `uid`, in order.
pub open spec fn frames_of(frames: Seq<Frame>, uid: Seq<char>) -> Seq<Frame> {
    frames.filter(uid_is(uid))
}

/// The users other than `id`, in order.
pub open spec fn users_without(users: Seq<User>, id: Seq<char>) -> Seq<User> {
    users.filter(id_is_not(id))
}

/// The readings of users other than `uid`, in order.
pub open spec fn frames_without(frames: Seq<Frame>, uid: Seq<char>) -> Seq<Frame> {
    frames.filter(uid_is_not(uid))
}

impl Tables {
    /// What the server keeps true of its tables: no two users share an id, nor names and
    /// address; no two readings share a primary key; and every reading belongs to a user.
    pub open spec fn wf(self) -> bool {
        &&& pairwise(self.users, ids_differ())
        &&& pairwise(self.users, bases_differ())
        &&& pairwise(self.frames, keys_differ())
        &&& forall|i: int|
            0 <= i < self.frames.len() ==> has_user_id(self.users, #[trigger] self.frames[i].uid@)
    }
}

impl Database {
    /// Empty tables.
    pub fn new() -> (db: Database)
        ensures
            db@.users.len() == 0,
            db@.frames.len() == 0,
            db@.wf(),
    {
        Database { users: Vec::new(), frames: Vec::new() }
    }
}

/// The index of the first user with the id `id`, if any.
pub(crate) fn find_user_by_id(users: &Vec<User>, id: &String) -> (r: Option<usize>)
    ensures
        match r {
            Some(i) => {
                &&& i < users@.len()
                &&& users@[i as int].id@ == id@
                &&& forall|j: int| 0 <= j < i ==> #[trigger] users@[j].id@ != id@
            },
            None => forall|j: int| 0 <= j < users@.len() ==> #[trigger] users@[j].id@ != id@,
        },
{
    let mut i: usize = 0;
    while i < users.len()
        invariant
            i <= users@.len(),
            forall|j: int| 0 <= j < i ==> #[trigger] users@[j].id@ != id@,
        decreases users@.len() - i,
    {
        if users[i].id == *id {
            return Some(i);
        }
        i = i + 1;
    }
    None
}

/// The index of the first user with the names and address of `b`, if any.
fn find_user_by_base(users: &Vec<User>, b: &BaseUser) -> (r: Option<usize>)
    ensures
        match r {
            Some(i) => {
                &&& i < users@.len()
                &&& users@[i as int].matches_base(*b)
                &&& forall|j: int| 0 <= j < i ==> !(#[trigger] users@[j]).matches_base(*b)
            },
            None => forall|j: int| 0 <= j < users@.len() ==> !(#[trigger] users@[j]).matches_base(*b),
        },
{
    let mut i: usize = 0;
    while i < users.len()
        invariant
            i <= users@.len(),
            forall|j: int| 0 <= j < i ==> !(#[trigger] users@[j]).matches_base(*b),
        decreases users@.len() - i,
    {
        let u = &users[i];
        if u.fname == b.fname && u.lname == b.lname && u.address == b.address {
            return Some(i);
        }
        i = i + 1;
    }
    None
}

/// The index of a reading with the primary key of `f`, if any.
pub(crate) fn find_frame_key(frames: &Vec<Frame>, f: &Frame) -> (r: Option<usize>)
    ensures
        match r {
            Some(i) => i < frames@.len() && frames@[i as int].same_key(*f),
            None => !has_frame_key(frames@, *f),
        },
{
    let mut i: usize = 0;
    while i < frames.len()
        invariant
            i <= frames@.len(),
            forall|j: int| 0 <= j < i ==> !(#[trigger] frames@[j]).same_key(*f),
        decreases frames@.len() - i,
    {
        if frames[i].uid == f.uid && frames[i].datetime == f.datetime {
            return Some(i);
        }
        i = i + 1;
    }
    None
}

/// Appends a reading to the `frames` table. A reading with the same `(uid, datetime)`
/// must not be there already: the table refuses it and the server stops.
pub fn add_frame(frames: &mut Vec<Frame>, frame: Frame)
    requires
        !has_frame_key(old(frames)@, frame),
    ensures
        final(frames)@ == old(frames)@.push(frame),
{
    frames.push(frame);
}

/// Appends a user to the `users` table. A user with the same id must not be there
/// already: the table refuses it and the server stops.
pub fn insert_user(users: &mut Vec<User>, user: User)
    requires
        !has_user_id(old(users)@, user.id@),
    ensures
        final(users)@ == old(users)@.push(user),
{
    users.push(user);
}

/// Deletes the user `uid_in` and all its readings, so that no reading is left without
/// its user.
pub fn delete_user(users: &mut Vec<User>, frames: &mut Vec<Frame>, uid_in: &String)
    ensures
        final(users)@ == users_without(old(users)@, uid_in@),
        final(frames)@ == frames_without(old(frames)@, uid_in@),
{
    let ghost fp = uid_is_not(uid_in@);
    let mut kept_frames: Vec<Frame> = Vec::new();
    let mut i: usize = 0;
    while i < frames.len()
        invariant
            i <= frames@.len(),
            kept_frames@ == frames@.take(i as int).filter(fp),
            fp == uid_is_not(uid_in@),
        decreases frames@.len() - i,
    {
        proof {
            lemma_filter_take_succ(frames@, fp, i as int);
        }
        if frames[i].uid != *uid_in {
            kept_frames.push(frames[i].clone());
        }
        i = i + 1;
    }
    assert(frames@.take(frames@.len() as int) =~= frames@);
    let ghost up = id_is_not(uid_in@);
    let mut kept_users: Vec<User> = Vec::new();
    let mut k: usize = 0;
    while k < users.len()
        invariant
            k <= users@.len(),
            kept_users@ == users@.take(k as int).filter(up),
            up == id_is_not(uid_in@),
        decreases users@.len() - k,
    {
        proof {
            lemma_filter_take_succ(users@, up, k as int);
        }
        if users[k].id != *uid_in {
            kept_users.push(users[k].clone());
        }
        k = k + 1;
    }
    assert(users@.take(users@.len() as int) =~= users@);
    *frames = kept_frames;
    *users = kept_users;
}

/// The ids of all users, in order.
pub fn get_uuids(users: &Vec<User>) -> (r: Vec<String>)
    ensures
        r@ == ids_of(users@),
{
    let mut r: Vec<String> = Vec::new();
    let mut i: usize = 0;
    while i < users.len()
        invariant
            i <= users@.len(),
            r@.len() == i,
            forall|j: int| 0 <= j < i ==> #[trigger] r@[j] == users@[j].id,
        decreases users@.len() - i,
    {
        r.push(users[i].id.clone());
        i = i + 1;
    }
    assert(r@ =~= ids_of(users@));
    r
}

/// The first user with the names and address of `u`. Some user must have them: the
/// query finds no row otherwise and the server stops.
pub fn get_user_from_baseuser(users: &Vec<User>, u: &BaseUser) -> (r: User)
    requires
        has_base(users@, *u),
    ensures
        user_with_base(users@, *u) == Some(r),
{
    match find_user_by_base(users, u) {
        Some(i) => {
            proof {
                lemma_filter_first(users@, base_is(*u), i as int);
            }
            users[i].clone()
        },
        None => unreached(),
    }
}

/// The first user with the id `id_in`. Some user must have it: the query finds no row
/// otherwise and the server stops.
pub fn get_user_from_id(users: &Vec<User>, id_in: &String) -> (r: User)
    requires
        has_user_id(users@, id_in@),
    ensures
        user_with_id(users@, id_in@) == Some(r),
{
    match find_user_by_id(users, id_in) {
        Some(i) => {
            proof {
                lemma_filter_first(users@, id_is(id_in@), i as int);
            }
            users[i].clone()
        },
        None => unreached(),
    }
}

/// The names and addresses of all users, in order.
pub fn get_users(users: &Vec<User>) -> (r: Vec<BaseUser>)
    ensures
        r@ == bases_of(users@),
{
    let mut baseusers: Vec<BaseUser> = Vec::new();
    let mut i: usize = 0;
    while i < users.len()
        invariant
            i <= users@.len(),
            baseusers@.len() == i,
            forall|j: int| 0 <= j < i ==> #[trigger] baseusers@[j] == users@[j].base(),
        decreases users@.len() - i,
    {
        let u = &users[i];
        baseusers.push(
            BaseUser { fname: u.fname.clone(), lname: u.lname.clone(), address: u.address.clone() },
        );
        i = i + 1;
    }
    assert(baseusers@ =~= bases_of(users@));
    baseusers
}

/// The readings of the user `uid_in`, in order.
pub fn get_frames(frames: &Vec<Frame>, uid_in: &String) -> (r: Vec<Frame>)
    ensures
        r@ == frames_of(frames@, uid_in@),
{
    let ghost p = uid_is(uid_in@);
    let mut r: Vec<Frame> = Vec::new();
    let mut i: usize = 0;
    while i < frames.len()
        invariant
            i <= frames@.len(),
            r@ == frames@.take(i as int).filter(p),
            p == uid_is(uid_in@),
        decreases frames@.len() - i,
    {
        proof {
            lemma_filter_take_succ(frames@, p, i as int);
        }
        if frames[i].uid == *uid_in {
            r.push(frames[i].clone());
        }
        i = i + 1;
    }
    assert(frames@.take(frames@.len() as int) =~= frames@);
    r
}

} // verus!
