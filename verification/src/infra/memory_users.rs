//! A user store that lives in memory.

use vstd::prelude::*;
use vstd::string::StringExecFns;
use crate::domain::users::{
    distinct_ids, has_id, user_views, users_after_create, users_after_delete, IUserRepository,
    User, UserView, Users,
};
use crate::error::{AppError, AppErrorView, ErrorKind};
use crate::infra::failures::{user_not_found, user_not_found_detail};
use crate::text::{decimal, decimal_text, lemma_decimal_is_not_empty};

verus! {

/// Filtering keeps a sequence as it is when every element passes.
proof fn lemma_filter_keeps_all<A>(s: Seq<A>, keep: spec_fn(A) -> bool)
    requires
        forall|i: int| 0 <= i < s.len() ==> keep(#[trigger] s[i]),
    ensures
        s.filter(keep) == s,
    decreases s.len(),
{
    reveal(Seq::filter);
    if s.len() > 0 {
        lemma_filter_keeps_all(s.drop_last(), keep);
        assert(s.drop_last().push(s.last()) =~= s);
    }
}

/// Dropping the last user keeps identifiers distinct.
proof fn lemma_front_keeps_ids_distinct(users: Users)
    requires
        distinct_ids(users),
        users.len() > 0,
    ensures
        distinct_ids(users.drop_last()),
{
    let front = users.drop_last();
    assert forall|a: int, b: int| 0 <= a < b < front.len() implies (#[trigger] front[a]).id != (
    #[trigger] front[b]).id by {
        assert(front[a] == users[a]);
        assert(front[b] == users[b]);
    }
}

/// Where identifiers are distinct, deleting an identifier removes the one
/// user that has it and keeps the others in their order.
proof fn lemma_delete_removes_one(users: Users, i: int)
    requires
        distinct_ids(users),
        0 <= i < users.len(),
    ensures
        users_after_delete(users, users[i].id) == users.remove(i),
    decreases users.len(),
{
    let id = users[i].id;
    let keep = |u: UserView| u.id != id;
    let front = users.drop_last();
    let last = users.last();
    assert(front.push(last) == users);
    front.lemma_filter_push(last, keep);
    if i == users.len() - 1 {
        assert forall|j: int| 0 <= j < front.len() implies keep(#[trigger] front[j]) by {
            assert(front[j] == users[j]);
            assert(users[j].id != users[i].id);
        }
        lemma_filter_keeps_all(front, keep);
        assert(users.remove(i) == front);
    } else {
        assert(users[i].id != last.id);
        assert(front[i] == users[i]);
        lemma_front_keeps_ids_distinct(users);
        lemma_delete_removes_one(front, i);
        assert(users.remove(i) == front.remove(i).push(last));
    }
}

/// Removing a user keeps identifiers distinct, and its identifier is then
/// no longer taken.
proof fn lemma_remove_keeps_ids_distinct(users: Users, i: int)
    requires
        distinct_ids(users),
        0 <= i < users.len(),
    ensures
        distinct_ids(users.remove(i)),
        !has_id(users.remove(i), users[i].id),
{
    let rest = users.remove(i);
    assert forall|a: int, b: int| 0 <= a < b < rest.len() implies (#[trigger] rest[a]).id != (
    #[trigger] rest[b]).id by {
        let a0 = if a < i { a } else { a + 1 };
        let b0 = if b < i { b } else { b + 1 };
        assert(rest[a] == users[a0]);
        assert(rest[b] == users[b0]);
    }
    assert forall|j: int| 0 <= j < rest.len() implies (#[trigger] rest[j]).id != users[i].id by {
        let j0 = if j < i { j } else { j + 1 };
        assert(rest[j] == users[j0]);
        if j0 < i {
            assert(users[j0].id != users[i].id);
        } else {
            assert(users[i].id != users[j0].id);
        }
    }
}

/// Adding a user under an identifier that is not taken keeps identifiers
/// distinct.
proof fn lemma_create_keeps_ids_distinct(users: Users, created: UserView)
    requires
        distinct_ids(users),
        !has_id(users, created.id),
    ensures
        distinct_ids(users_after_create(users, created)),
{
    let after = users_after_create(users, created);
    assert forall|a: int, b: int| 0 <= a < b < after.len() implies (#[trigger] after[a]).id != (
    #[trigger] after[b]).id by {
        assert(after[b] == users[b - 1]);
        if a == 0 {
            assert(after[a] == created);
        } else {
            assert(after[a] == users[a - 1]);
        }
    }
}

/// The detail of the failure that a failing store reports.
pub open spec fn unavailable_detail() -> Seq<char> {
    "the in-memory user store is unavailable"@
}

/// A user store in memory: a list of users, the most recently created
/// first, in which no identifier occurs twice. It stamps each record with
/// the reading of a counter that it advances with every record, and it can
/// be told to fail, to stand for a store that is out of reach.
pub struct InMemoryUserRepository {
    users: Vec<User>,
    clock: u64,
    failing: bool,
}

impl InMemoryUserRepository {
    #[verifier::type_invariant]
    spec fn ids_are_distinct(self) -> bool {
        distinct_ids(user_views(self.users@))
    }

    /// The reading of the counter with which the next record is stamped.
    pub closed spec fn clock(&self) -> u64 {
        self.clock
    }

    /// An empty store that answers every request, its counter at zero.
    pub fn new() -> (store: Self)
        ensures
            store.users() == Users::empty(),
            store.fault_free(),
            store.clock() == 0,
    {
        let store = InMemoryUserRepository { users: Vec::new(), clock: 0, failing: false };
        assert(store.users() =~= Users::empty());
        store
    }

    /// From now on the store fails every request if `failing`, and answers
    /// every request it can if not. Its users stay as they are.
    pub fn set_failing(&mut self, failing: bool)
        ensures
            final(self).users() == old(self).users(),
            final(self).fault_free() == !failing,
            final(self).clock() == old(self).clock(),
    {
        proof {
            use_type_invariant(&*self);
        }
        self.failing = failing;
    }

    /// The failure that a failing store reports: a `Database` failure that
    /// says that the store is unavailable.
    fn unavailable() -> (e: AppError)
        ensures
            e@ == (AppErrorView { kind: ErrorKind::Database, detail: unavailable_detail() }),
    {
        AppError::Database("the in-memory user store is unavailable".to_owned())
    }

    /// The position of the user with the identifier `id`, if there is one.
    fn position(&self, id: &String) -> (at: Option<usize>)
        ensures
            match at {
                Some(i) => i < self.users.len() && self.users[i as int].id@ == id@,
                None => !has_id(user_views(self.users@), id@),
            },
    {
        let mut i: usize = 0;
        while i < self.users.len()
            invariant
                i <= self.users.len(),
                forall|j: int| 0 <= j < i ==> self.users[j].id@ != id@,
            decreases self.users.len() - i,
        {
            if self.users[i].id == *id {
                return Some(i);
            }
            i += 1;
        }
        None
    }
}

/// The detail of the failure that reports an identifier that is taken.
pub open spec fn taken_detail(id: Seq<char>) -> Seq<char> {
    "User "@ + id + " already exists"@
}

impl IUserRepository for InMemoryUserRepository {
    closed spec fn users(&self) -> Users {
        user_views(self.users@)
    }

    closed spec fn fault_free(&self) -> bool {
        !self.failing
    }

    /// Stamps the record with the reading of the counter, written in
    /// decimal, and advances the counter as long as it can count on. Refuses
    /// an identifier that is taken with a failure of kind `Database`.
    fn create(&mut self, user: User) -> (r: Result<User, AppError>)
        ensures
            old(self).fault_free() && has_id(old(self).users(), user.id@) ==> (r matches Err(e)
                && e@.kind == ErrorKind::Database && e@.detail == taken_detail(user.id@)),
            r matches Ok(created) ==> {
                &&& created@.created_at == decimal(old(self).clock() as nat)
                &&& created@.updated_at == decimal(old(self).clock() as nat)
                &&& final(self).clock() == if old(self).clock() < u64::MAX {
                    (old(self).clock() + 1) as u64
                } else {
                    old(self).clock()
                }
            },
            r is Err ==> final(self).clock() == old(self).clock(),
    {
        proof {
            use_type_invariant(&*self);
        }
        if self.failing {
            return Err(Self::unavailable());
        }
        let taken = self.position(&user.id);
        if taken.is_some() {
            assert(user_views(self.users@)[taken.unwrap() as int].id == user.id@);
            let detail = String::from_str("User ").concat(user.id.as_str()).concat(
                " already exists",
            );
            return Err(AppError::Database(detail));
        }
        let stamp = decimal_text(self.clock);
        proof {
            lemma_decimal_is_not_empty(self.clock as nat);
        }
        if self.clock < u64::MAX {
            self.clock = self.clock + 1;
        }
        let stored = User {
            id: user.id,
            username: user.username,
            email: user.email,
            role: user.role,
            created_at: stamp.clone(),
            updated_at: stamp,
        };
        let created = stored.clone();
        let ghost before = user_views(self.users@);
        let mut users: Vec<User> = Vec::new();
        core::mem::swap(&mut self.users, &mut users);
        users.insert(0, stored);
        proof {
            assert(user_views(users@) =~= users_after_create(before, created@));
            lemma_create_keeps_ids_distinct(before, created@);
        }
        core::mem::swap(&mut self.users, &mut users);
        Ok(created)
    }

    fn list(&self) -> (r: Result<Vec<User>, AppError>) {
        if self.failing {
            return Err(Self::unavailable());
        }
        let mut listed: Vec<User> = Vec::new();
        let mut i: usize = 0;
        while i < self.users.len()
            invariant
                i <= self.users.len(),
                listed.len() == i,
                forall|j: int| 0 <= j < i ==> listed[j]@ == self.users[j]@,
            decreases self.users.len() - i,
        {
            listed.push(self.users[i].clone());
            i += 1;
        }
        assert(user_views(listed@) =~= user_views(self.users@));
        Ok(listed)
    }

    fn find_by_id(&self, id: &str) -> (r: Result<Option<User>, AppError>) {
        if self.failing {
            return Err(Self::unavailable());
        }
        let id = id.to_owned();
        match self.position(&id) {
            Some(i) => {
                let found = self.users[i].clone();
                assert(user_views(self.users@)[i as int] == found@);
                Ok(Some(found))
            },
            None => Ok(None),
        }
    }

    /// Reports an unknown identifier as `NotFound`, naming the identifier.
    fn delete(&mut self, id: &str) -> (r: Result<(), AppError>)
        ensures
            old(self).fault_free() && !has_id(old(self).users(), id@) ==> (r matches Err(e)
                && e@.detail == user_not_found_detail(id@)),
            final(self).clock() == old(self).clock(),
    {
        proof {
            use_type_invariant(&*self);
        }
        if self.failing {
            return Err(Self::unavailable());
        }
        let key = id.to_owned();
        match self.position(&key) {
            Some(i) => {
                let ghost before = user_views(self.users@);
                let mut users: Vec<User> = Vec::new();
                core::mem::swap(&mut self.users, &mut users);
                users.remove(i);
                proof {
                    lemma_delete_removes_one(before, i as int);
                    lemma_remove_keeps_ids_distinct(before, i as int);
                    assert(user_views(users@) =~= before.remove(i as int));
                }
                core::mem::swap(&mut self.users, &mut users);
                Ok(())
            },
            None => Err(user_not_found(id)),
        }
    }
}

} // verus!
