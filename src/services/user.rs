use vstd::prelude::*;

use crate::error::{is_conflict, is_not_found, AppError, OptionExt};
use crate::models::{
    UserView,
    apply_update, created_user, new_user, updated_user, CreateUserInput, UpdateUserInput, User,
};
use crate::store::{email_held_by_other, has_email, has_id, index_of, lookup, table_wf, UserStore};

verus! {

/// Relies on `uuid::Uuid::new_v4`: a random identifier whose version field
/// (bits 76..80) is 4 and whose variant field (bits 62..64) is `10`.
#[verifier::external_body]
fn new_user_id() -> (r: u128)
    ensures
        (r >> 76u128) & 0xfu128 == 4,
        (r >> 62u128) & 0x3u128 == 2,
{
    uuid::Uuid::new_v4().as_u128()
}

/// Relies on `std::time::SystemTime::now` and `SystemTime::duration_since`:
/// the current time in microseconds since the Unix epoch; `None` where the
/// clock reads before the epoch or past the range of `i64`.
#[verifier::external_body]
fn current_time() -> (r: Option<i64>)
    ensures
        r matches Some(t) ==> t >= 0,
{
    let since = std::time::SystemTime::now().duration_since(std::time::UNIX_EPOCH).ok()?;
    i64::try_from(since.as_micros()).ok()
}

/// The error of a clock that could not be read.
fn clock_error() -> (r: AppError)
    ensures
        r matches AppError::Internal(_),
{
    AppError::Internal("the system clock reads before the Unix epoch".to_owned())
}

/// Refuses an address that an existing row already holds.
pub fn check_new_email(existing: &Option<User>) -> (r: Result<(), AppError>)
    ensures
        existing is None <==> r is Ok,
        r matches Err(e) ==> is_conflict(e, "email already exists"@),
{
    match existing {
        Some(_) => Err(AppError::conflict("email already exists")),
        None => Ok(()),
    }
}

/// Refuses an address held by a user other than the one of `id`; a match on
/// the same user is no conflict.
pub fn check_email_owner(id: u128, existing: &Option<User>) -> (r: Result<(), AppError>)
    ensures
        (existing matches Some(u) && u.id != id) <==> r is Err,
        r matches Err(e) ==> is_conflict(e, "email already exists"@),
{
    match existing {
        Some(u) => {
            if u.id != id {
                Err(AppError::conflict("email already exists"))
            } else {
                Ok(())
            }
        },
        None => Ok(()),
    }
}

/// The outcome of an update or delete that touched `rows` rows: none means
/// the user is gone.
pub fn rows_outcome(rows: u64) -> (r: Result<(), AppError>)
    ensures
        rows == 0 ==> (r matches Err(e) && is_not_found(e, "user"@)),
        rows != 0 ==> r is Ok,
{
    if rows == 0 {
        Err(AppError::not_found("user"))
    } else {
        Ok(())
    }
}

/// Maps a storage failure to an error kind. A unique-constraint violation is a
/// `Conflict` (it catches the race between the address check and the write);
/// every other storage failure is `Database`, carrying `detail` for the log.
pub fn storage_error(is_unique_violation: bool, detail: String) -> (r: AppError)
    ensures
        is_unique_violation ==> is_conflict(r, "email already exists"@),
        !is_unique_violation ==> r == AppError::Database(detail),
{
    if is_unique_violation {
        AppError::conflict("email already exists")
    } else {
        AppError::Database(detail)
    }
}

/// The user of `id`; `NotFound("user")` when there is none.
pub fn find_by_id(db: &UserStore, id: u128) -> (r: Result<User, AppError>)
    requires
        db.wf(),
    ensures
        match lookup(db@, id) {
            Some(v) => r matches Ok(u) && u@ == v,
            None => r matches Err(e) && is_not_found(e, "user"@),
        },
{
    db.get_by_id(id).or_not_found("user")
}

/// The user whose address is `email`, if any.
pub fn find_by_email(db: &UserStore, email: &str) -> (r: Option<User>)
    requires
        db.wf(),
    ensures
        match r {
            Some(u) => db@.contains(u@) && u.email@ == email@,
            None => !has_email(db@, email@),
        },
{
    db.get_by_email(email)
}

/// Creates a user with the given identifier at clock reading `clock`. A
/// taken address gives `Conflict("email already exists")`; then an unread
/// clock gives `Internal`; an identifier the table has accepted before is
/// refused by it (`Database`). On failure nothing is inserted.
fn create_at(db: &mut UserStore, input: CreateUserInput, id: u128, clock: Option<i64>) -> (r: Result<User, AppError>)
    requires
        old(db).wf(),
    ensures
        final(db).wf(),
        has_email(old(db)@, input.email@) ==> (r matches Err(e) && is_conflict(e, "email already exists"@)),
        !has_email(old(db)@, input.email@) && clock is None ==> r matches Err(AppError::Internal(_)),
        !has_email(old(db)@, input.email@) && clock is Some && old(db).issued().contains(id)
            ==> r matches Err(AppError::Database(_)),
        !has_email(old(db)@, input.email@) && clock is Some && !old(db).issued().contains(id) ==> (r matches Ok(u)
            && u@ == created_user(id, input, clock.unwrap()) && final(db)@ == old(db)@.push(u@)
            && final(db).issued() == old(db).issued().push(id)),
        r is Err ==> final(db)@ == old(db)@ && final(db).issued() == old(db).issued(),
{
    let existing = find_by_email(db, input.email.as_str());
    if let Some(u) = &existing {
        proof {
            let k = choose|k: int| 0 <= k < old(db)@.len() && old(db)@[k] == u@;
            assert(old(db)@[k].email == input.email@);
        }
    }
    check_new_email(&existing)?;
    let now = match clock {
        Some(t) => t,
        None => {
            return Err(clock_error());
        },
    };
    let user = new_user(id, input, now);
    match db.insert(user.duplicate()) {
        Ok(()) => Ok(user),
        Err(e) => Err(e),
    }
}

/// Creates a user with the given identifier at time `now`. A taken address
/// gives `Conflict("email already exists")`; an identifier the table has
/// accepted before, even one of a deleted row, is refused by it (`Database`).
/// On failure nothing is inserted.
pub fn create_with(db: &mut UserStore, input: CreateUserInput, id: u128, now: i64) -> (r: Result<User, AppError>)
    requires
        old(db).wf(),
    ensures
        final(db).wf(),
        has_email(old(db)@, input.email@) ==> (r matches Err(e) && is_conflict(e, "email already exists"@)),
        !has_email(old(db)@, input.email@) && old(db).issued().contains(id) ==> r matches Err(AppError::Database(_)),
        !has_email(old(db)@, input.email@) && !old(db).issued().contains(id) ==> (r matches Ok(u)
            && u@ == created_user(id, input, now) && final(db)@ == old(db)@.push(u@)
            && final(db).issued() == old(db).issued().push(id)),
        r is Err ==> final(db)@ == old(db)@ && final(db).issued() == old(db).issued(),
{
    create_at(db, input, id, Some(now))
}

/// Creates a user under a random identifier, stamped with the current time.
/// The returned identifier was never given out before. A fresh address on a
/// table that never accepted an identifier is created unless the clock cannot
/// be read (`Internal`); `Database` comes only where the drawn identifier was
/// given out before.
pub fn create(db: &mut UserStore, input: CreateUserInput) -> (r: Result<User, AppError>)
    requires
        old(db).wf(),
    ensures
        final(db).wf(),
        has_email(old(db)@, input.email@) ==> (r matches Err(e) && is_conflict(e, "email already exists"@)),
        !has_email(old(db)@, input.email@) && old(db).issued().len() == 0 ==> (r is Ok || r matches Err(
            AppError::Internal(_),
        )),
        !has_email(old(db)@, input.email@) ==> (r is Ok || r matches Err(AppError::Internal(_)) || r matches Err(
            AppError::Database(_),
        )),
        r matches Err(AppError::Database(_)) ==> old(db).issued().len() > 0,
        r matches Err(AppError::Conflict(_)) ==> has_email(old(db)@, input.email@),
        r matches Ok(u) ==> !old(db).issued().contains(u.id) && u.created_at >= 0
            && u@ == created_user(u.id, input, u.created_at) && final(db)@ == old(db)@.push(u@)
            && final(db).issued() == old(db).issued().push(u.id),
        r is Err ==> final(db)@ == old(db)@ && final(db).issued() == old(db).issued(),
{
    let id = new_user_id();
    let clock = current_time();
    create_at(db, input, id, clock)
}

/// Applies a partial update to the user of `id` at clock reading `clock`.
/// An unknown `id` gives `NotFound("user")`; an address held by another user
/// gives `Conflict("email already exists")`; then an unread clock gives
/// `Internal`. On failure nothing changes.
fn update_at(db: &mut UserStore, id: u128, input: UpdateUserInput, clock: Option<i64>) -> (r: Result<User, AppError>)
    requires
        old(db).wf(),
    ensures
        final(db).wf(),
        final(db).issued() == old(db).issued(),
        !has_id(old(db)@, id) ==> (r matches Err(e) && is_not_found(e, "user"@)),
        has_id(old(db)@, id) && (input.email matches Some(m) && email_held_by_other(old(db)@, m@, id))
            ==> (r matches Err(e) && is_conflict(e, "email already exists"@)),
        has_id(old(db)@, id) && !(input.email matches Some(m) && email_held_by_other(old(db)@, m@, id))
            && clock is None ==> r matches Err(AppError::Internal(_)),
        has_id(old(db)@, id) && !(input.email matches Some(m) && email_held_by_other(old(db)@, m@, id))
            && clock is Some ==> (r matches Ok(u)
            && u@ == updated_user(old(db)@[index_of(old(db)@, id)], input, clock.unwrap())
            && final(db)@ == old(db)@.update(index_of(old(db)@, id), u@)),
        r is Err ==> final(db)@ == old(db)@,
{
    let current = match find_by_id(db, id) {
        Ok(u) => u,
        Err(e) => {
            return Err(e);
        },
    };
    if let Some(email) = &input.email {
        let existing = find_by_email(db, email.as_str());
        if let Some(u) = &existing {
            proof {
                let k = choose|k: int| 0 <= k < old(db)@.len() && old(db)@[k] == u@;
                assert(old(db)@[k].email == email@);
            }
        }
        check_email_owner(id, &existing)?;
        proof {
            if email_held_by_other(old(db)@, email@, id) {
                let j = choose|j: int|
                    0 <= j < old(db)@.len() && #[trigger] old(db)@[j].email == email@ && old(db)@[j].id != id;
                let u = existing.unwrap();
                let k = choose|k: int| 0 <= k < old(db)@.len() && old(db)@[k] == u@;
                assert(old(db)@[k].email == old(db)@[j].email);
                if k != j {
                    assert(old(db)@[k].id != old(db)@[j].id);
                }
            }
        }
    }
    let now = match clock {
        Some(t) => t,
        None => {
            return Err(clock_error());
        },
    };
    let user = apply_update(&current, &input, now);
    proof {
        let k = index_of(old(db)@, id);
        assert(old(db)@[k].updated_at >= old(db)@[k].created_at);
    }
    match db.replace(user.duplicate()) {
        Ok(()) => Ok(user),
        Err(e) => Err(e),
    }
}

/// Applies a partial update to the user of `id` at clock reading `now`. An
/// unknown `id` gives `NotFound("user")`; an address held by another user
/// gives `Conflict("email already exists")`. On failure nothing changes.
pub fn update_with(db: &mut UserStore, id: u128, input: UpdateUserInput, now: i64) -> (r: Result<User, AppError>)
    requires
        old(db).wf(),
    ensures
        final(db).wf(),
        final(db).issued() == old(db).issued(),
        !has_id(old(db)@, id) ==> (r matches Err(e) && is_not_found(e, "user"@)),
        has_id(old(db)@, id) && (input.email matches Some(m) && email_held_by_other(old(db)@, m@, id))
            ==> (r matches Err(e) && is_conflict(e, "email already exists"@)),
        has_id(old(db)@, id) && !(input.email matches Some(m) && email_held_by_other(old(db)@, m@, id))
            ==> (r matches Ok(u) && u@ == updated_user(old(db)@[index_of(old(db)@, id)], input, now)
            && final(db)@ == old(db)@.update(index_of(old(db)@, id), u@)),
        r is Err ==> final(db)@ == old(db)@,
{
    update_at(db, id, input, Some(now))
}

/// Applies a partial update to the user of `id`, stamped with the current
/// time. The checks of `update_with` come first; where they pass and the clock
/// can be read the update is made, and `updated_at` grows strictly (short of
/// the largest stamp).
pub fn update(db: &mut UserStore, id: u128, input: UpdateUserInput) -> (r: Result<User, AppError>)
    requires
        old(db).wf(),
    ensures
        final(db).wf(),
        final(db).issued() == old(db).issued(),
        !has_id(old(db)@, id) ==> (r matches Err(e) && is_not_found(e, "user"@)),
        has_id(old(db)@, id) && (input.email matches Some(m) && email_held_by_other(old(db)@, m@, id))
            ==> (r matches Err(e) && is_conflict(e, "email already exists"@)),
        has_id(old(db)@, id) && !(input.email matches Some(m) && email_held_by_other(old(db)@, m@, id))
            ==> (r is Ok || r matches Err(AppError::Internal(_))),
        r matches Ok(u) ==> {
            let row = old(db)@[index_of(old(db)@, id)];
            &&& has_id(old(db)@, id)
            &&& u@ == updated_user(row, input, u.updated_at)
            &&& u.updated_at >= u.created_at
            &&& row.updated_at < i64::MAX ==> u.updated_at > row.updated_at
            &&& final(db)@ == old(db)@.update(index_of(old(db)@, id), u@)
        },
        r is Err ==> final(db)@ == old(db)@,
{
    let clock = current_time();
    let r = update_at(db, id, input, clock);
    proof {
        if r is Ok {
            let k = index_of(old(db)@, id);
            assert(0 <= k < old(db)@.len() && old(db)@[k].id == id);
            assert(old(db)@[k].updated_at >= old(db)@[k].created_at);
        }
    }
    r
}

/// Removes the user of `id`; `NotFound("user")` when there is none.
pub fn delete(db: &mut UserStore, id: u128) -> (r: Result<(), AppError>)
    requires
        old(db).wf(),
    ensures
        final(db).wf(),
        has_id(old(db)@, id) ==> r is Ok && final(db)@ == old(db)@.remove(index_of(old(db)@, id)),
        !has_id(old(db)@, id) ==> (r matches Err(e) && is_not_found(e, "user"@)) && final(db)@ == old(db)@,
{
    let rows = db.remove(id);
    if rows == 0 {
        return Err(AppError::not_found("user"));
    }
    Ok(())
}

/// A user just created under an identifier that no row had is what a lookup
/// of that identifier then returns.
pub proof fn lemma_create_then_find(s: Seq<UserView>, u: UserView)
    requires
        !has_id(s, u.id),
    ensures
        has_id(s.push(u), u.id),
        lookup(s.push(u), u.id) == Some(u),
{
    let t = s.push(u);
    assert(t[s.len() as int].id == u.id);
    let k = index_of(t, u.id);
    if k < s.len() {
        assert(s[k].id == u.id);
    }
}

/// After the row of `id` is deleted no row has `id`, so a second delete, a
/// lookup or an update of `id` all fail with `NotFound`.
pub proof fn lemma_delete_removes(s: Seq<UserView>, id: u128)
    requires
        table_wf(s),
        has_id(s, id),
    ensures
        !has_id(s.remove(index_of(s, id)), id),
        lookup(s.remove(index_of(s, id)), id) is None,
{
    let k = index_of(s, id);
    let t = s.remove(k);
    if has_id(t, id) {
        let j = choose|j: int| 0 <= j < t.len() && #[trigger] t[j].id == id;
        let j2 = if j < k { j } else { j + 1 };
        assert(t[j] == s[j2]);
        assert(s[j2].id != s[k].id);
    }
}

/// An update that sets the name alone keeps the stored address, and
/// `updated_at` strictly grows whatever the clock reads (short of the largest
/// stamp).
pub proof fn lemma_rename_keeps_email(u: UserView, input: UpdateUserInput, now: i64)
    requires
        input.email is None,
        input.name is Some,
        u.updated_at < i64::MAX,
    ensures
        updated_user(u, input, now).email == u.email,
        updated_user(u, input, now).name == input.name.unwrap()@,
        updated_user(u, input, now).updated_at > u.updated_at,
        updated_user(u, input, now).id == u.id,
        updated_user(u, input, now).created_at == u.created_at,
{
}

/// A new row has `updated_at == created_at`, and an update at any clock
/// reading keeps `updated_at >= created_at`.
pub proof fn lemma_timestamps_ordered(id: u128, created: CreateUserInput, u: UserView, input: UpdateUserInput, now: i64)
    requires
        u.updated_at >= u.created_at,
    ensures
        created_user(id, created, now).updated_at == created_user(id, created, now).created_at,
        updated_user(u, input, now).updated_at >= updated_user(u, input, now).created_at,
{
}

} // verus!
