use vstd::prelude::*;

use crate::error::{is_conflict, AppError};
use crate::models::{User, UserView};

verus! {

/// Some row of `s` has identifier `id`.
pub open spec fn has_id(s: Seq<UserView>, id: u128) -> bool {
    exists|i: int| 0 <= i < s.len() && #[trigger] s[i].id == id
}

/// Some row of `s` has the address `email`.
pub open spec fn has_email(s: Seq<UserView>, email: Seq<char>) -> bool {
    exists|i: int| 0 <= i < s.len() && #[trigger] s[i].email == email
}

/// Some row of `s` other than the one of `id` has the address `email`.
pub open spec fn email_held_by_other(s: Seq<UserView>, email: Seq<char>, id: u128) -> bool {
    exists|i: int| 0 <= i < s.len() && #[trigger] s[i].email == email && s[i].id != id
}

/// The table's constraints: identifiers and addresses are each unique, and no
/// row was updated before it was created.
pub open spec fn table_wf(s: Seq<UserView>) -> bool {
    &&& forall|i: int, j: int|
        0 <= i < s.len() && 0 <= j < s.len() && i != j ==> #[trigger] s[i].id != #[trigger] s[j].id
            && s[i].email != s[j].email
    &&& forall|i: int| 0 <= i < s.len() ==> #[trigger] s[i].updated_at >= s[i].created_at
}

/// The position of the row of `id`.
pub open spec fn index_of(s: Seq<UserView>, id: u128) -> int {
    choose|i: int| 0 <= i < s.len() && #[trigger] s[i].id == id
}

/// The row of `id`, if there is one.
pub open spec fn lookup(s: Seq<UserView>, id: u128) -> Option<UserView> {
    if has_id(s, id) {
        Some(s[index_of(s, id)])
    } else {
        None
    }
}

/// In a well-formed table the row of an identifier is the only one with it.
pub proof fn lemma_index_of_unique(s: Seq<UserView>, id: u128, i: int)
    requires
        table_wf(s),
        0 <= i < s.len(),
        s[i].id == id,
    ensures
        index_of(s, id) == i,
        lookup(s, id) == Some(s[i]),
{
    let k = index_of(s, id);
    assert(0 <= k < s.len() && s[k].id == id);
}

/// The `users` table: one row per account, under its constraints, with every
/// identifier it has ever accepted (an identifier is never given out twice,
/// not even after its row is deleted).
pub struct UserStore {
    users: Vec<User>,
    issued: Vec<u128>,
}

impl View for UserStore {
    type V = Seq<UserView>;

    closed spec fn view(&self) -> Seq<UserView> {
        self.users@.map_values(|u: User| u@)
    }
}

impl UserStore {
    /// Every identifier the table has accepted, in order.
    pub closed spec fn issued(&self) -> Seq<u128> {
        self.issued@
    }

    /// The table holds its constraints, and each row's identifier is one it
    /// accepted.
    pub open spec fn wf(&self) -> bool {
        &&& table_wf(self@)
        &&& forall|i: int| 0 <= i < self@.len() ==> self.issued().contains(#[trigger] self@[i].id)
    }

    /// An empty table.
    pub fn new() -> (r: UserStore)
        ensures
            r.wf(),
            r@ == Seq::<UserView>::empty(),
            r.issued() == Seq::<u128>::empty(),
    {
        let r = UserStore { users: Vec::new(), issued: Vec::new() };
        assert(r@ =~= Seq::<UserView>::empty());
        r
    }

    /// Number of rows.
    pub fn len(&self) -> (r: usize)
        ensures
            r == self@.len(),
    {
        self.users.len()
    }

    fn position_of_id(&self, id: u128) -> (r: Option<usize>)
        ensures
            match r {
                Some(i) => i < self@.len() && self@[i as int].id == id,
                None => !has_id(self@, id),
            },
    {
        let mut i: usize = 0;
        while i < self.users.len()
            invariant
                i <= self.users.len(),
                self@.len() == self.users.len(),
                forall|k: int| 0 <= k < i ==> #[trigger] self@[k].id != id,
            decreases self.users.len() - i,
        {
            if self.users[i].id == id {
                return Some(i);
            }
            i = i + 1;
        }
        None
    }

    fn was_issued(&self, id: u128) -> (r: bool)
        ensures
            r == self.issued().contains(id),
    {
        let mut i: usize = 0;
        while i < self.issued.len()
            invariant
                i <= self.issued.len(),
                forall|k: int| 0 <= k < i ==> #[trigger] self.issued@[k] != id,
            decreases self.issued.len() - i,
        {
            if self.issued[i] == id {
                return true;
            }
            i = i + 1;
        }
        false
    }

    fn position_of_email(&self, email: &String) -> (r: Option<usize>)
        ensures
            match r {
                Some(i) => i < self@.len() && self@[i as int].email == email@,
                None => !has_email(self@, email@),
            },
    {
        let mut i: usize = 0;
        while i < self.users.len()
            invariant
                i <= self.users.len(),
                self@.len() == self.users.len(),
                forall|k: int| 0 <= k < i ==> #[trigger] self@[k].email != email@,
            decreases self.users.len() - i,
        {
            if self.users[i].email == *email {
                return Some(i);
            }
            i = i + 1;
        }
        None
    }

    fn held_by_other(&self, email: &String, id: u128) -> (r: bool)
        ensures
            r == email_held_by_other(self@, email@, id),
    {
        let mut j: usize = 0;
        while j < self.users.len()
            invariant
                j <= self.users.len(),
                self@.len() == self.users.len(),
                forall|k: int| 0 <= k < j ==> #[trigger] self@[k].email != email@ || self@[k].id == id,
            decreases self.users.len() - j,
        {
            if self.users[j].email == *email && self.users[j].id != id {
                assert(self@[j as int].email == email@);
                return true;
            }
            j = j + 1;
        }
        false
    }

    /// The row with identifier `id`.
    pub fn get_by_id(&self, id: u128) -> (r: Option<User>)
        requires
            self.wf(),
        ensures
            match lookup(self@, id) {
                Some(v) => r matches Some(u) && u@ == v,
                None => r is None,
            },
    {
        match self.position_of_id(id) {
            Some(i) => {
                proof {
                    lemma_index_of_unique(self@, id, i as int);
                }
                Some(self.users[i].duplicate())
            },
            None => None,
        }
    }

    /// The row whose address is `email`.
    pub fn get_by_email(&self, email: &str) -> (r: Option<User>)
        ensures
            match r {
                Some(u) => self@.contains(u@) && u.email@ == email@,
                None => !has_email(self@, email@),
            },
    {
        let key = email.to_owned();
        match self.position_of_email(&key) {
            Some(i) => {
                let u = self.users[i].duplicate();
                assert(self@[i as int] == u@);
                Some(u)
            },
            None => None,
        }
    }

    /// Inserts a row. An identifier the table has accepted before breaks the
    /// primary key (`Database`); a taken address breaks the unique constraint
    /// on `email` (`Conflict`).
    pub fn insert(&mut self, u: User) -> (r: Result<(), AppError>)
        requires
            old(self).wf(),
            u.updated_at >= u.created_at,
        ensures
            final(self).wf(),
            old(self).issued().contains(u.id) ==> r matches Err(AppError::Database(_)),
            !old(self).issued().contains(u.id) && has_email(old(self)@, u.email@) ==> (r matches Err(e)
                && is_conflict(e, "email already exists"@)),
            !old(self).issued().contains(u.id) && !has_email(old(self)@, u.email@) ==> r is Ok
                && final(self)@ == old(self)@.push(u@) && final(self).issued() == old(self).issued().push(u.id),
            r is Err ==> final(self)@ == old(self)@ && final(self).issued() == old(self).issued(),
    {
        if self.was_issued(u.id) {
            return Err(AppError::Database("duplicate key value violates constraint users_pkey".to_owned()));
        }
        if self.position_of_email(&u.email).is_some() {
            return Err(AppError::conflict("email already exists"));
        }
        let ghost before = self@;
        let ghost issued_before = self.issued@;
        let ghost uv = u@;
        self.issued.push(u.id);
        self.users.push(u);
        assert(self@ =~= before.push(uv));
        assert forall|i: int| 0 <= i < self@.len() implies self.issued().contains(#[trigger] self@[i].id) by {
            if i < before.len() {
                assert(issued_before.contains(before[i].id));
                let k = choose|k: int| 0 <= k < issued_before.len() && issued_before[k] == before[i].id;
                assert(self.issued@[k] == before[i].id);
            } else {
                assert(self.issued@[issued_before.len() as int] == uv.id);
            }
        }
        Ok(())
    }

    /// Replaces the row of `u.id` by `u`, under the same constraints.
    pub fn replace(&mut self, u: User) -> (r: Result<(), AppError>)
        requires
            old(self).wf(),
            u.updated_at >= u.created_at,
        ensures
            final(self).wf(),
            final(self).issued() == old(self).issued(),
            !has_id(old(self)@, u.id) ==> r matches Err(AppError::Database(_)),
            has_id(old(self)@, u.id) && email_held_by_other(old(self)@, u.email@, u.id) ==> (r matches Err(e)
                && is_conflict(e, "email already exists"@)),
            has_id(old(self)@, u.id) && !email_held_by_other(old(self)@, u.email@, u.id) ==> r is Ok
                && final(self)@ == old(self)@.update(index_of(old(self)@, u.id), u@),
            r is Err ==> final(self)@ == old(self)@,
    {
        let i = match self.position_of_id(u.id) {
            Some(i) => i,
            None => {
                return Err(AppError::Database("no rows returned".to_owned()));
            },
        };
        proof {
            lemma_index_of_unique(self@, u.id, i as int);
        }
        if self.held_by_other(&u.email, u.id) {
            return Err(AppError::conflict("email already exists"));
        }
        let ghost before = self@;
        let ghost uv = u@;
        self.users.set(i, u);
        assert(self@ =~= before.update(i as int, uv));
        assert forall|a: int, b: int|
            0 <= a < self@.len() && 0 <= b < self@.len() && a != b implies #[trigger] self@[a].id
            != #[trigger] self@[b].id && self@[a].email != self@[b].email by {
            if a == i {
                assert(before[b].id != before[i as int].id);
            } else if b == i {
                assert(before[a].id != before[i as int].id);
            }
        }
        assert forall|a: int| 0 <= a < self@.len() implies self.issued().contains(#[trigger] self@[a].id) by {
            assert(self.issued().contains(before[a].id));
        }
        Ok(())
    }

    /// Deletes the row of `id`; returns the number of rows removed.
    pub fn remove(&mut self, id: u128) -> (r: u64)
        requires
            old(self).wf(),
        ensures
            final(self).wf(),
            final(self).issued() == old(self).issued(),
            has_id(old(self)@, id) ==> r == 1 && final(self)@ == old(self)@.remove(index_of(old(self)@, id)),
            !has_id(old(self)@, id) ==> r == 0 && final(self)@ == old(self)@,
    {
        match self.position_of_id(id) {
            Some(i) => {
                proof {
                    lemma_index_of_unique(self@, id, i as int);
                }
                let ghost before = self@;
                let _ = self.users.remove(i);
                assert(self@ =~= before.remove(i as int));
                assert forall|a: int, b: int|
                    0 <= a < self@.len() && 0 <= b < self@.len() && a != b implies #[trigger] self@[a].id
                    != #[trigger] self@[b].id && self@[a].email != self@[b].email by {
                    let a2 = if a < i { a } else { a + 1 };
                    let b2 = if b < i { b } else { b + 1 };
                    assert(self@[a] == before[a2]);
                    assert(self@[b] == before[b2]);
                    assert(table_wf(before));
                    assert(0 <= a2 < before.len() && 0 <= b2 < before.len() && a2 != b2);
                    assert(before[a2].id != before[b2].id);
                }
                assert forall|a: int| 0 <= a < self@.len() implies self.issued().contains(#[trigger] self@[a].id) by {
                    let a2 = if a < i { a } else { a + 1 };
                    assert(self@[a] == before[a2]);
                    assert(self.issued().contains(before[a2].id));
                }
                1
            },
            None => 0,
        }
    }
}

} // verus!
