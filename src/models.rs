use vstd::prelude::*;

verus! {

/// A registered account. `id` is the 128-bit value of a UUID; the two
/// timestamps are microseconds since the Unix epoch (UTC).
#[derive(Debug, Clone, PartialEq, Eq)]
pub struct User {
    pub id: u128,
    pub email: String,
    pub name: String,
    pub created_at: i64,
    pub updated_at: i64,
}

/// The mathematical value of a [`User`].
pub struct UserView {
    pub id: u128,
    pub email: Seq<char>,
    pub name: Seq<char>,
    pub created_at: i64,
    pub updated_at: i64,
}

impl View for User {
    type V = UserView;

    open spec fn view(&self) -> UserView {
        UserView {
            id: self.id,
            email: self.email@,
            name: self.name@,
            created_at: self.created_at,
            updated_at: self.updated_at,
        }
    }
}

impl User {
    /// A field-by-field copy.
    pub fn duplicate(&self) -> (r: User)
        ensures
            r@ == self@,
    {
        User {
            id: self.id,
            email: self.email.clone(),
            name: self.name.clone(),
            created_at: self.created_at,
            updated_at: self.updated_at,
        }
    }
}

/// What a caller supplies to register an account.
#[derive(Debug, Clone)]
pub struct CreateUserInput {
    pub email: String,
    pub name: String,
}

/// A partial update: an absent field leaves the stored value as it is.
#[derive(Debug, Clone)]
pub struct UpdateUserInput {
    pub email: Option<String>,
    pub name: Option<String>,
}

/// The value a present field gives, or the stored one when it is absent.
pub open spec fn overwrite(given: Option<String>, stored: Seq<char>) -> Seq<char> {
    match given {
        Some(s) => s@,
        None => stored,
    }
}

/// A freshly created user with the given identifier and time.
pub open spec fn created_user(id: u128, input: CreateUserInput, now: i64) -> UserView {
    UserView { id, email: input.email@, name: input.name@, created_at: now, updated_at: now }
}

/// The time a write at clock reading `now` stamps on a row last written at
/// `prev`: `now` when the clock has moved on, else the next microsecond, so a
/// stamp never goes backwards.
pub open spec fn next_stamp(prev: i64, now: i64) -> i64 {
    if now > prev {
        now
    } else if prev < i64::MAX {
        (prev + 1) as i64
    } else {
        prev
    }
}

/// The stored user after a partial update at clock reading `now`.
pub open spec fn updated_user(u: UserView, input: UpdateUserInput, now: i64) -> UserView {
    UserView {
        id: u.id,
        email: overwrite(input.email, u.email),
        name: overwrite(input.name, u.name),
        created_at: u.created_at,
        updated_at: next_stamp(u.updated_at, now),
    }
}

/// The stamp of a write at clock reading `now` on a row last written at `prev`.
pub fn stamp_after(prev: i64, now: i64) -> (r: i64)
    ensures
        r == next_stamp(prev, now),
{
    if now > prev {
        now
    } else if prev < i64::MAX {
        prev + 1
    } else {
        prev
    }
}

/// Builds the row of a new user.
pub fn new_user(id: u128, input: CreateUserInput, now: i64) -> (r: User)
    ensures
        r@ == created_user(id, input, now),
{
    User { id, email: input.email, name: input.name, created_at: now, updated_at: now }
}

fn pick(given: &Option<String>, stored: &String) -> (r: String)
    ensures
        r@ == overwrite(*given, stored@),
{
    match given {
        Some(s) => s.clone(),
        None => stored.clone(),
    }
}

/// Applies a partial update: each present field overwrites the stored value,
/// and `updated_at` becomes `now`, or the next microsecond where `now` is not
/// past the last write.
pub fn apply_update(user: &User, input: &UpdateUserInput, now: i64) -> (r: User)
    ensures
        r@ == updated_user(user@, *input, now),
{
    User {
        id: user.id,
        email: pick(&input.email, &user.email),
        name: pick(&input.name, &user.name),
        created_at: user.created_at,
        updated_at: stamp_after(user.updated_at, now),
    }
}

} // verus!
