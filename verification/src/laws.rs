//! What holds of the server across requests: the invariant of its tables, and what a
//! later request sees of an earlier one.
use vstd::prelude::*;
use crate::handlers::{
    delete_model, push_model, register_model, uuid_model, CreateReply, DeleteReplyView, PushReply,
    UuidReplyView,
};
use crate::models::{frame_of, user_of, BaseUser, Frame, FrameIn, SensorDatas, User, UserIn};
use crate::readings::{count_boiler_on, lists_fields_of};
use crate::password::{argon2_verify_result, has_argon2id_prefix, phc_parse_result};
use crate::seq_facts::{
    lemma_filter_all_pass, lemma_filter_filter, lemma_filter_first, lemma_filter_nonempty,
    lemma_filter_pairwise,
    pairwise,
};
use crate::sql_actions::{
    base_is, bases_differ, bases_of, frames_of, frames_without, has_base, has_frame_key,
    has_user_id, id_is, id_is_not, ids_differ, ids_of, keys_differ, uid_is, uid_is_not,
    user_with_base, user_with_id, users_without, Tables,
};

verus! {

broadcast use vstd::seq_lib::group_seq_properties;

/// Storing a reading keeps the tables' invariant.
pub proof fn lemma_push_keeps_wf(t: Tables, frame: FrameIn, datetime: String)
    requires
        t.wf(),
    ensures
        push_model(t, frame, datetime).0.wf(),
{
    let f = frame_of(frame, datetime);
    if has_user_id(t.users, frame.uid@) && !has_frame_key(t.frames, f) {
        let fs = t.frames.push(f);
        assert forall|i: int, j: int| 0 <= i < j < fs.len() implies #[trigger] keys_differ()(
            fs[i],
            fs[j],
        ) by {
            if j == fs.len() - 1 {
                assert(fs[i] == t.frames[i]);
                assert(!t.frames[i].same_key(f));
            } else {
                assert(keys_differ()(t.frames[i], t.frames[j]));
            }
        }
        assert(pairwise(fs, keys_differ()));
        assert forall|i: int| 0 <= i < fs.len() implies has_user_id(
            t.users,
            #[trigger] fs[i].uid@,
        ) by {
            if i < t.frames.len() {
                assert(fs[i] == t.frames[i]);
            }
        }
    }
}

/// Creating an account keeps the tables' invariant.
pub proof fn lemma_register_keeps_wf(
    t: Tables,
    form: UserIn,
    hashed: Result<String, String>,
    new_id: String,
)
    requires
        t.wf(),
    ensures
        register_model(t, form, hashed, new_id).0.wf(),
{
    if let Ok(h) = hashed {
        if !has_base(t.users, form.base()) && !has_user_id(t.users, new_id@) {
            let u = user_of(form, new_id, h);
            let us = t.users.push(u);
            assert forall|i: int, j: int| 0 <= i < j < us.len() implies #[trigger] ids_differ()(
                us[i],
                us[j],
            ) by {
                if j == us.len() - 1 {
                    assert(us[i] == t.users[i]);
                } else {
                    assert(ids_differ()(t.users[i], t.users[j]));
                }
            }
            assert forall|i: int, j: int| 0 <= i < j < us.len() implies #[trigger] bases_differ()(
                us[i],
                us[j],
            ) by {
                if j == us.len() - 1 {
                    assert(us[i] == t.users[i]);
                    assert(!t.users[i].matches_base(form.base()));
                } else {
                    assert(bases_differ()(t.users[i], t.users[j]));
                }
            }
            assert(pairwise(us, ids_differ()));
            assert(pairwise(us, bases_differ()));
            assert forall|i: int| 0 <= i < t.frames.len() implies has_user_id(
                us,
                #[trigger] t.frames[i].uid@,
            ) by {
                assert(has_user_id(t.users, t.frames[i].uid@));
                let k = choose|k: int| 0 <= k < t.users.len() && t.users[k].id@ == t.frames[i].uid@;
                assert(us[k] == t.users[k]);
            }
        }
    }
}

/// Deleting an account keeps the tables' invariant: in particular no reading is left
/// without its user.
pub proof fn lemma_delete_keeps_wf(t: Tables, form: UserIn)
    requires
        t.wf(),
    ensures
        delete_model(t, form).0.wf(),
{
    let t2 = delete_model(t, form).0;
    if delete_model(t, form).1 is Deleted {
        let id = user_with_base(t.users, form.base()).unwrap().id@;
        assert(t2.users == users_without(t.users, id));
        assert(t2.frames == frames_without(t.frames, id));
        lemma_filter_pairwise(t.users, id_is_not(id), ids_differ());
        lemma_filter_pairwise(t.users, id_is_not(id), bases_differ());
        lemma_filter_pairwise(t.frames, uid_is_not(id), keys_differ());
        assert forall|i: int| 0 <= i < t2.frames.len() implies has_user_id(
            t2.users,
            #[trigger] t2.frames[i].uid@,
        ) by {
            let f = t2.frames[i];
            t.frames.lemma_filter_pred(uid_is_not(id), i);
            assert(t2.frames.contains(f));
            t.frames.lemma_filter_contains_rev(uid_is_not(id), f);
            let k = choose|k: int| 0 <= k < t.frames.len() && t.frames[k] == f;
            assert(has_user_id(t.users, t.frames[k].uid@));
            let j = choose|j: int| 0 <= j < t.users.len() && t.users[j].id@ == t.frames[k].uid@;
            t.users.lemma_filter_contains(id_is_not(id), j);
            let j2 = choose|j2: int| 0 <= j2 < t2.users.len() && t2.users[j2] == t.users[j];
            assert(t2.users[j2].id@ == f.uid@);
        }
    }
}

/// An account just created can be fetched by its id, with its names, address and a password
/// hash that parses and verifies its password; and asking for the id of its names and
/// address with its password gives that id. The stored hash differs from the password
/// unless the password itself begins with `$argon2id$`. This holds whenever a successful
/// hashing gives an Argon2id PHC string that parses and verifies the password, as
/// `create_user` states.
pub proof fn lemma_created_account_is_found(
    t: Tables,
    form: UserIn,
    hashed: Result<String, String>,
    new_id: String,
)
    requires
        hashed matches Ok(h) ==> phc_parse_result(h@) is Ok && argon2_verify_result(
            form.password@,
            h@,
        ) is Ok && has_argon2id_prefix(h@),
        register_model(t, form, hashed, new_id).1 is Created,
    ensures
        ({
            let t2 = register_model(t, form, hashed, new_id).0;
            let h = hashed->Ok_0;
            &&& register_model(t, form, hashed, new_id).1 == CreateReply::Created(new_id)
            &&& has_user_id(t2.users, new_id@)
            &&& has_base(t2.users, form.base())
            &&& user_with_id(t2.users, new_id@) == Some(user_of(form, new_id, h))
            &&& phc_parse_result(h@) is Ok
            &&& argon2_verify_result(form.password@, h@) is Ok
            &&& uuid_model(t2, form) == UuidReplyView::Found(new_id@)
            &&& !has_argon2id_prefix(form.password@) ==> h@ != form.password@
        }),
{
    let h = hashed->Ok_0;
    let u = user_of(form, new_id, h);
    let us = t.users.push(u);
    assert(!has_base(t.users, form.base()));
    assert(!has_user_id(t.users, new_id@));
    assert(register_model(t, form, hashed, new_id).0.users == us);
    assert(us[us.len() - 1].id@ == new_id@);
    assert(us[us.len() - 1].matches_base(form.base()));
    lemma_filter_nonempty(t.users, id_is(new_id@));
    lemma_filter_nonempty(t.users, base_is(form.base()));
    t.users.lemma_filter_push(u, id_is(new_id@));
    t.users.lemma_filter_push(u, base_is(form.base()));
    assert(us.filter(id_is(new_id@)) =~= seq![u]);
    assert(us.filter(base_is(form.base())) =~= seq![u]);
}

/// Once an account is created, creating another with the same names and address is
/// refused with the first account's id, and changes nothing.
pub proof fn lemma_second_registration_conflicts(
    t: Tables,
    form: UserIn,
    h: String,
    new_id: String,
    form2: UserIn,
    h2: String,
    new_id2: String,
)
    requires
        register_model(t, form, Ok(h), new_id).1 == CreateReply::Created(new_id),
        form2.base().same_as(form.base()),
    ensures
        ({
            let t2 = register_model(t, form, Ok(h), new_id).0;
            &&& register_model(t2, form2, Ok(h2), new_id2).1 == CreateReply::Conflict(new_id)
            &&& register_model(t2, form2, Ok(h2), new_id2).0 == t2
        }),
{
    let u = user_of(form, new_id, h);
    let us = t.users.push(u);
    assert(!has_base(t.users, form.base()));
    assert(register_model(t, form, Ok(h), new_id).0.users == us);
    assert(us[us.len() - 1].matches_base(form2.base()));
    assert(has_base(us, form2.base()));
    lemma_filter_nonempty(t.users, base_is(form2.base()));
    t.users.lemma_filter_push(u, base_is(form2.base()));
    assert(us.filter(base_is(form2.base())) =~= seq![u]);
}

/// After an account is deleted, no user has its id and no reading is left of it, while
/// every other user, and the readings of every other user, stay as they were.
pub proof fn lemma_deleted_account_leaves_nothing(t: Tables, form: UserIn, other: Seq<char>)
    requires
        delete_model(t, form).1 is Deleted,
    ensures
        ({
            let id = delete_model(t, form).1->Deleted_0;
            let t2 = delete_model(t, form).0;
            &&& !has_user_id(t2.users, id)
            &&& frames_of(t2.frames, id).len() == 0
            &&& other != id ==> user_with_id(t2.users, other) == user_with_id(t.users, other)
            &&& other != id ==> frames_of(t2.frames, other) == frames_of(t.frames, other)
        }),
{
    let id = user_with_base(t.users, form.base()).unwrap().id@;
    let t2 = delete_model(t, form).0;
    assert(t2.users == users_without(t.users, id));
    assert(t2.frames == frames_without(t.frames, id));
    assert forall|i: int| 0 <= i < t2.users.len() implies t2.users[i].id@ != id by {
        t.users.lemma_filter_pred(id_is_not(id), i);
    }
    lemma_filter_nonempty(t2.frames, uid_is(id));
    assert forall|i: int| 0 <= i < t2.frames.len() implies !uid_is(id)(t2.frames[i]) by {
        t.frames.lemma_filter_pred(uid_is_not(id), i);
    }
    if other != id {
        assert forall|x: User| #[trigger] id_is(other)(x) implies id_is_not(id)(x) by {}
        assert forall|x: Frame| #[trigger] uid_is(other)(x) implies uid_is_not(id)(x) by {}
        lemma_filter_filter(t.users, id_is_not(id), id_is(other));
        lemma_filter_filter(t.frames, uid_is_not(id), uid_is(other));
    }
}

/// Deleting an account just created, with its password, removes it and leaves the tables
/// as they were before it was created.
pub proof fn lemma_create_then_delete_restores(t: Tables, form: UserIn, h: String, new_id: String)
    requires
        t.wf(),
        register_model(t, form, Ok(h), new_id).1 == CreateReply::Created(new_id),
        phc_parse_result(h@) is Ok,
        argon2_verify_result(form.password@, h@) is Ok,
    ensures
        delete_model(register_model(t, form, Ok(h), new_id).0, form) == (
            t,
            DeleteReplyView::Deleted(new_id@),
        ),
{
    let u = user_of(form, new_id, h);
    let t2 = register_model(t, form, Ok(h), new_id).0;
    let us = t.users.push(u);
    assert(t2.users == us);
    assert(us[us.len() - 1].matches_base(form.base()));
    assert(has_base(us, form.base()));
    lemma_filter_nonempty(t.users, base_is(form.base()));
    t.users.lemma_filter_push(u, base_is(form.base()));
    assert(us.filter(base_is(form.base())) =~= seq![u]);
    assert(user_with_base(us, form.base()) == Some(u));
    assert(!has_user_id(t.users, new_id@));
    t.users.lemma_filter_push(u, id_is_not(new_id@));
    lemma_filter_all_pass(t.users, id_is_not(new_id@));
    assert forall|i: int| 0 <= i < t.frames.len() implies uid_is_not(new_id@)(
        #[trigger] t.frames[i],
    ) by {
        assert(has_user_id(t.users, t.frames[i].uid@));
    }
    lemma_filter_all_pass(t.frames, uid_is_not(new_id@));
}

/// A stored reading is listed last among the readings of its user; the readings of every
/// other user stay as they were.
pub proof fn lemma_pushed_reading_is_listed(
    t: Tables,
    frame: FrameIn,
    datetime: String,
    other: Seq<char>,
)
    requires
        push_model(t, frame, datetime).1 == PushReply::Appended,
    ensures
        frames_of(push_model(t, frame, datetime).0.frames, frame.uid@) == frames_of(
            t.frames,
            frame.uid@,
        ).push(frame_of(frame, datetime)),
        other != frame.uid@ ==> frames_of(push_model(t, frame, datetime).0.frames, other)
            == frames_of(t.frames, other),
{
    let f = frame_of(frame, datetime);
    assert(push_model(t, frame, datetime).0.frames == t.frames.push(f));
    t.frames.lemma_filter_push(f, uid_is(frame.uid@));
    t.frames.lemma_filter_push(f, uid_is(other));
}

/// The id given to a new account is accepted for its readings from then on.
pub proof fn lemma_created_id_accepts_readings(
    t: Tables,
    form: UserIn,
    h: String,
    new_id: String,
    frame: FrameIn,
    datetime: String,
)
    requires
        register_model(t, form, Ok(h), new_id).1 == CreateReply::Created(new_id),
        frame.uid@ == new_id@,
    ensures
        push_model(register_model(t, form, Ok(h), new_id).0, frame, datetime).1
            != PushReply::UnknownUser,
{
    let t2 = register_model(t, form, Ok(h), new_id).0;
    assert(t2.users[t2.users.len() - 1].id@ == frame.uid@);
}

/// A reading for an id that no user has is refused and changes nothing.
pub proof fn lemma_unknown_user_reading_refused(t: Tables, frame: FrameIn, datetime: String)
    requires
        !has_user_id(t.users, frame.uid@),
    ensures
        push_model(t, frame, datetime) == (t, PushReply::UnknownUser),
{
}

/// A wrong password changes nothing: deleting is refused, and the id is not given.
pub proof fn lemma_wrong_password_refused(t: Tables, form: UserIn)
    requires
        user_with_base(t.users, form.base()) matches Some(u) && phc_parse_result(u.psk_hash@) is Ok
            && argon2_verify_result(form.password@, u.psk_hash@) is Err,
    ensures
        delete_model(t, form).0 == t,
        delete_model(t, form).1 is Forbidden,
        uuid_model(t, form) is Unauthorized,
{
    lemma_filter_nonempty(t.users, base_is(form.base()));
}

/// An id that no user has has no readings.
pub proof fn lemma_unknown_user_has_no_readings(t: Tables, uid: Seq<char>)
    requires
        t.wf(),
        !has_user_id(t.users, uid),
    ensures
        frames_of(t.frames, uid).len() == 0,
{
    lemma_filter_nonempty(t.frames, uid_is(uid));
    assert forall|i: int| 0 <= i < t.frames.len() implies !uid_is(uid)(#[trigger] t.frames[i]) by {
        assert(has_user_id(t.users, t.frames[i].uid@));
    }
}

/// In well-formed tables the id names one user: the lookup by id gives the user that has it.
pub proof fn lemma_lookup_by_id_is_unique(t: Tables, i: int)
    requires
        t.wf(),
        0 <= i < t.users.len(),
    ensures
        user_with_id(t.users, t.users[i].id@) == Some(t.users[i]),
{
    let id = t.users[i].id@;
    assert forall|j: int| 0 <= j < i implies !id_is(id)(#[trigger] t.users[j]) by {
        assert(ids_differ()(t.users[j], t.users[i]));
    }
    lemma_filter_first(t.users, id_is(id), i);
}

/// In well-formed tables the names and address name one user: the lookup by them gives
/// the user that has them.
pub proof fn lemma_lookup_by_base_is_unique(t: Tables, b: BaseUser, i: int)
    requires
        t.wf(),
        0 <= i < t.users.len(),
        t.users[i].matches_base(b),
    ensures
        user_with_base(t.users, b) == Some(t.users[i]),
{
    assert forall|j: int| 0 <= j < i implies !base_is(b)(#[trigger] t.users[j]) by {
        assert(bases_differ()(t.users[j], t.users[i]));
    }
    lemma_filter_first(t.users, base_is(b), i);
}

/// Registering with a hash, when no stored user has the same first name, last name and
/// address as the form and no stored user has the new id, stores the account (its names,
/// address, the hash and the new id) after the others and answers that id; readings are
/// untouched.
pub proof fn lemma_register_stores_new_account(t: Tables, form: UserIn, h: String, new_id: String)
    requires
        forall|i: int|
            0 <= i < t.users.len() ==> !(#[trigger] t.users[i].fname@ == form.fname@
                && t.users[i].lname@ == form.lname@ && t.users[i].address@ == form.address@),
        forall|i: int| 0 <= i < t.users.len() ==> #[trigger] t.users[i].id@ != new_id@,
    ensures
        register_model(t, form, Ok(h), new_id).1 == CreateReply::Created(new_id),
        register_model(t, form, Ok(h), new_id).0.users == t.users.push(
            User {
                id: new_id,
                psk_hash: h,
                fname: form.fname,
                lname: form.lname,
                address: form.address,
            },
        ),
        register_model(t, form, Ok(h), new_id).0.frames == t.frames,
{
    assert(!has_base(t.users, form.base()));
    assert(!has_user_id(t.users, new_id@));
}

/// Registering with a hash when the `i`-th user is the first with the same first name,
/// last name and address as the form refuses the account, answers that user's id and
/// changes nothing.
pub proof fn lemma_register_conflict_names_the_same_account(
    t: Tables,
    form: UserIn,
    h: String,
    new_id: String,
    i: int,
)
    requires
        0 <= i < t.users.len(),
        t.users[i].fname@ == form.fname@,
        t.users[i].lname@ == form.lname@,
        t.users[i].address@ == form.address@,
        forall|j: int|
            0 <= j < i ==> !(#[trigger] t.users[j].fname@ == form.fname@ && t.users[j].lname@
                == form.lname@ && t.users[j].address@ == form.address@),
    ensures
        register_model(t, form, Ok(h), new_id) == (t, CreateReply::Conflict(t.users[i].id)),
{
    assert(t.users[i].matches_base(form.base()));
    assert forall|j: int| 0 <= j < i implies !base_is(form.base())(#[trigger] t.users[j]) by {}
    lemma_filter_first(t.users, base_is(form.base()), i);
}

/// A registration is refused as a conflict only when some stored user has the same first
/// name, last name and address as the form, and the answer is the id of such a user.
pub proof fn lemma_conflict_only_for_the_same_account(
    t: Tables,
    form: UserIn,
    hashed: Result<String, String>,
    new_id: String,
)
    requires
        register_model(t, form, hashed, new_id).1 is Conflict,
    ensures
        exists|i: int|
            0 <= i < t.users.len() && t.users[i].fname@ == form.fname@ && t.users[i].lname@
                == form.lname@ && t.users[i].address@ == form.address@
                && register_model(t, form, hashed, new_id).1 == CreateReply::Conflict(
                t.users[i].id,
            ),
{
    lemma_filter_nonempty(t.users, base_is(form.base()));
    let u = t.users.filter(base_is(form.base()))[0];
    t.users.lemma_filter_pred(base_is(form.base()), 0);
    assert(t.users.filter(base_is(form.base())).contains(u));
    t.users.lemma_filter_contains_rev(base_is(form.base()), u);
    let i = choose|i: int| 0 <= i < t.users.len() && t.users[i] == u;
    assert(t.users[i].fname@ == form.fname@);
}

/// A reading for a user that exists, whose time no reading of that user has yet, is
/// stored after all others, with the user's id, that time and the reading's values, and
/// the answer is `Appended`; users are untouched.
pub proof fn lemma_push_stores_reading(t: Tables, frame: FrameIn, datetime: String, k: int)
    requires
        0 <= k < t.users.len(),
        t.users[k].id@ == frame.uid@,
        forall|i: int|
            0 <= i < t.frames.len() ==> !(#[trigger] t.frames[i].uid@ == frame.uid@
                && t.frames[i].datetime@ == datetime@),
    ensures
        push_model(t, frame, datetime).1 == PushReply::Appended,
        push_model(t, frame, datetime).0.users == t.users,
        push_model(t, frame, datetime).0.frames == t.frames.push(
            Frame {
                uid: frame.uid,
                datetime: datetime,
                temp: frame.temp,
                ppm: frame.ppm,
                light: frame.light,
                boiler: frame.boiler,
            },
        ),
{
    assert(has_user_id(t.users, frame.uid@));
    assert(!has_frame_key(t.frames, frame_of(frame, datetime)));
}

/// Asking for the id of the account whose names and address are those of the `i`-th user,
/// the first such user, with a password that verifies against its stored hash, answers
/// that user's id; with a password that does not verify, it refuses for that user.
pub proof fn lemma_get_uuid_answers_the_matching_user(t: Tables, form: UserIn, i: int)
    requires
        0 <= i < t.users.len(),
        t.users[i].fname@ == form.fname@,
        t.users[i].lname@ == form.lname@,
        t.users[i].address@ == form.address@,
        forall|j: int|
            0 <= j < i ==> !(#[trigger] t.users[j].fname@ == form.fname@ && t.users[j].lname@
                == form.lname@ && t.users[j].address@ == form.address@),
        phc_parse_result(t.users[i].psk_hash@) is Ok,
    ensures
        argon2_verify_result(form.password@, t.users[i].psk_hash@) is Ok ==> uuid_model(t, form)
            == UuidReplyView::Found(t.users[i].id@),
        argon2_verify_result(form.password@, t.users[i].psk_hash@) is Err ==> uuid_model(
            t,
            form,
        ) == UuidReplyView::Unauthorized(
            t.users[i].id@,
            argon2_verify_result(form.password@, t.users[i].psk_hash@)->Err_0,
        ),
{
    assert(t.users[i].matches_base(form.base()));
    assert forall|j: int| 0 <= j < i implies !base_is(form.base())(#[trigger] t.users[j]) by {}
    lemma_filter_first(t.users, base_is(form.base()), i);
}

/// In well-formed tables, asking for the id with the names, address and right password
/// of any stored user answers that user's id, wherever it stands in the table.
pub proof fn lemma_get_uuid_finds_any_account(t: Tables, form: UserIn, i: int)
    requires
        t.wf(),
        0 <= i < t.users.len(),
        t.users[i].fname@ == form.fname@,
        t.users[i].lname@ == form.lname@,
        t.users[i].address@ == form.address@,
        phc_parse_result(t.users[i].psk_hash@) is Ok,
        argon2_verify_result(form.password@, t.users[i].psk_hash@) is Ok,
    ensures
        uuid_model(t, form) == UuidReplyView::Found(t.users[i].id@),
{
    assert(t.users[i].matches_base(form.base()));
    lemma_lookup_by_base_is_unique(t, form.base(), i);
}

/// Deleting with the names, address and right password of the `i`-th user, the first such
/// user, removes that user and its readings, keeps every other user and reading in order,
/// and answers that user's id.
pub proof fn lemma_delete_removes_the_matching_user(t: Tables, form: UserIn, i: int)
    requires
        0 <= i < t.users.len(),
        t.users[i].fname@ == form.fname@,
        t.users[i].lname@ == form.lname@,
        t.users[i].address@ == form.address@,
        forall|j: int|
            0 <= j < i ==> !(#[trigger] t.users[j].fname@ == form.fname@ && t.users[j].lname@
                == form.lname@ && t.users[j].address@ == form.address@),
        phc_parse_result(t.users[i].psk_hash@) is Ok,
        argon2_verify_result(form.password@, t.users[i].psk_hash@) is Ok,
    ensures
        delete_model(t, form).1 == DeleteReplyView::Deleted(t.users[i].id@),
        delete_model(t, form).0.users == t.users.filter(
            |u: User| u.id@ != t.users[i].id@,
        ),
        delete_model(t, form).0.frames == t.frames.filter(
            |f: Frame| f.uid@ != t.users[i].id@,
        ),
{
    assert(t.users[i].matches_base(form.base()));
    assert(has_base(t.users, form.base()));
    assert forall|j: int| 0 <= j < i implies !base_is(form.base())(#[trigger] t.users[j]) by {}
    lemma_filter_first(t.users, base_is(form.base()), i);
    let id = t.users[i].id@;
    assert(id_is_not(id) =~= (|u: User| u.id@ != id));
    assert(uid_is_not(id) =~= (|f: Frame| f.uid@ != id));
}

/// Counting readings with the boiler on: none in no readings, and one more for a reading
/// with the boiler on added at the end; it is the number of readings with the boiler on.
pub proof fn lemma_count_boiler_on(fs: Seq<Frame>, f: Frame)
    ensures
        count_boiler_on(Seq::<Frame>::empty()) == 0,
        count_boiler_on(fs.push(f)) == count_boiler_on(fs) + if f.boiler {
            1int
        } else {
            0int
        },
        count_boiler_on(fs) == fs.filter(|g: Frame| g.boiler).len(),
    decreases fs.len(),
{
    assert(fs.push(f).drop_last() =~= fs);
    reveal(Seq::filter);
    if fs.len() > 0 {
        lemma_count_boiler_on(fs.drop_last(), fs.last());
    }
}

/// Listing the readings field by field gives, at each position, the fields of the reading
/// at that position, for as many positions as there are readings.
pub proof fn lemma_lists_fields_of(s: SensorDatas, fs: Seq<Frame>)
    requires
        lists_fields_of(s, fs),
    ensures
        s.datetimes@.len() == fs.len(),
        s.temps@.len() == fs.len(),
        s.ppms@.len() == fs.len(),
        s.lights@.len() == fs.len(),
        s.boilers@.len() == fs.len(),
        forall|j: int|
            0 <= j < fs.len() ==> {
                &&& #[trigger] s.datetimes@[j] == fs[j].datetime
                &&& s.temps@[j] == fs[j].temp
                &&& s.ppms@[j] == fs[j].ppm
                &&& s.lights@[j] == fs[j].light
                &&& s.boilers@[j] == fs[j].boiler
            },
{
}

/// The list of ids has one entry per user, the id of the user at the same position; the
/// list of names and addresses likewise.
pub proof fn lemma_lists_of_users(users: Seq<User>)
    ensures
        ids_of(users).len() == users.len(),
        bases_of(users).len() == users.len(),
        forall|i: int| 0 <= i < users.len() ==> #[trigger] ids_of(users)[i] == users[i].id,
        forall|i: int|
            0 <= i < users.len() ==> {
                &&& (#[trigger] bases_of(users)[i]).fname == users[i].fname
                &&& bases_of(users)[i].lname == users[i].lname
                &&& bases_of(users)[i].address == users[i].address
            },
{
}

/// Looking a user up by id gives the first user with that id, and nothing when no user
/// has it.
pub proof fn lemma_lookup_by_id_gives_the_first(users: Seq<User>, id: Seq<char>, i: int)
    ensures
        (forall|j: int| 0 <= j < users.len() ==> #[trigger] users[j].id@ != id) ==> user_with_id(
            users,
            id,
        ) is None,
        0 <= i < users.len() && users[i].id@ == id && (forall|j: int|
            0 <= j < i ==> #[trigger] users[j].id@ != id) ==> user_with_id(users, id) == Some(
            users[i],
        ),
{
    lemma_filter_nonempty(users, id_is(id));
    if 0 <= i < users.len() && users[i].id@ == id && (forall|j: int|
        0 <= j < i ==> #[trigger] users[j].id@ != id) {
        lemma_filter_first(users, id_is(id), i);
    }
}

/// Looking a user up by names and address gives the first user with the same first name,
/// last name and address, and nothing when no user has them.
pub proof fn lemma_lookup_by_base_gives_the_first(users: Seq<User>, b: BaseUser, i: int)
    ensures
        (forall|j: int|
            0 <= j < users.len() ==> !(#[trigger] users[j].fname@ == b.fname@ && users[j].lname@
                == b.lname@ && users[j].address@ == b.address@)) ==> user_with_base(users, b) is None,
        0 <= i < users.len() && users[i].fname@ == b.fname@ && users[i].lname@ == b.lname@
            && users[i].address@ == b.address@ && (forall|j: int|
            0 <= j < i ==> !(#[trigger] users[j].fname@ == b.fname@ && users[j].lname@ == b.lname@
                && users[j].address@ == b.address@)) ==> user_with_base(users, b) == Some(users[i]),
{
    lemma_filter_nonempty(users, base_is(b));
    if 0 <= i < users.len() && users[i].fname@ == b.fname@ && users[i].lname@ == b.lname@
        && users[i].address@ == b.address@ && (forall|j: int|
        0 <= j < i ==> !(#[trigger] users[j].fname@ == b.fname@ && users[j].lname@ == b.lname@
            && users[j].address@ == b.address@)) {
        assert forall|j: int| 0 <= j < i implies !base_is(b)(#[trigger] users[j]) by {}
        lemma_filter_first(users, base_is(b), i);
    }
}

/// The readings of a user are the readings with that user's id, in stored order.
pub proof fn lemma_frames_of_user(frames: Seq<Frame>, uid: Seq<char>)
    ensures
        frames_of(frames, uid) == frames.filter(|f: Frame| f.uid@ == uid),
{
    assert(uid_is(uid) =~= (|f: Frame| f.uid@ == uid));
}

} // verus!
