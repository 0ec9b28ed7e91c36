//! User records: created, listed, looked up and deleted, never changed in
//! place.

use vstd::prelude::*;
use crate::domain::cqrs::{Command, Query};
use crate::error::{AppError, ErrorKind};
use crate::text::optional_text;

verus! {

/// A user as the store holds it.
#[derive(Debug, PartialEq, Eq)]
pub struct User {
    /// Assigned when the user is created, and never changed.
    pub id: String,
    pub username: String,
    pub email: Option<String>,
    /// By convention `"admin"` or `"user"`; any text is accepted.
    pub role: String,
    /// Stamped by the store when it writes the record.
    pub created_at: String,
    /// Stamped by the store when it writes the record.
    pub updated_at: String,
}

/// What a `User` is, as plain values.
pub struct UserView {
    pub id: Seq<char>,
    pub username: Seq<char>,
    pub email: Option<Seq<char>>,
    pub role: Seq<char>,
    pub created_at: Seq<char>,
    pub updated_at: Seq<char>,
}

impl View for User {
    type V = UserView;

    open spec fn view(&self) -> UserView {
        UserView {
            id: self.id@,
            username: self.username@,
            email: optional_text(self.email),
            role: self.role@,
            created_at: self.created_at@,
            updated_at: self.updated_at@,
        }
    }
}

impl Clone for User {
    fn clone(&self) -> (copy: Self)
        ensures
            copy@ == self@,
    {
        let email = match &self.email {
            Some(address) => Some(address.clone()),
            None => None,
        };
        User {
            id: self.id.clone(),
            username: self.username.clone(),
            email,
            role: self.role.clone(),
            created_at: self.created_at.clone(),
            updated_at: self.updated_at.clone(),
        }
    }
}

/// Creates a user. The identifier and the timestamps are not the caller's
/// to choose.
#[derive(Debug, PartialEq, Eq)]
pub struct CreateUserCmd {
    pub username: String,
    pub email: Option<String>,
    pub role: String,
}

impl Command for CreateUserCmd {}

impl CreateUserCmd {
    /// The record to hand to the store for this command, under the
    /// identifier `id`: the timestamps are left empty for the store to fill.
    pub fn into_user(self, id: String) -> (user: User)
        ensures
            user@ == (UserView {
                id: id@,
                username: self.username@,
                email: optional_text(self.email),
                role: self.role@,
                created_at: Seq::<char>::empty(),
                updated_at: Seq::<char>::empty(),
            }),
    {
        User {
            id,
            username: self.username,
            email: self.email,
            role: self.role,
            created_at: String::new(),
            updated_at: String::new(),
        }
    }
}

/// Deletes the user with the identifier `id`.
#[derive(Debug, PartialEq, Eq)]
pub struct DeleteUserCmd {
    pub id: String,
}

impl Command for DeleteUserCmd {}

/// Asks for every user, newest first.
#[derive(Clone, Copy, Debug, PartialEq, Eq)]
pub struct ListUsersQuery;

impl Query for ListUsersQuery {}

/// Asks for the user with the identifier `id`.
#[derive(Debug, PartialEq, Eq)]
pub struct GetUserByIdQuery {
    pub id: String,
}

impl Query for GetUserByIdQuery {}

/// The users of a store, the most recently created first.
pub type Users = Seq<UserView>;

/// Some user in `users` has the identifier `id`.
pub open spec fn has_id(users: Users, id: Seq<char>) -> bool {
    exists|i: int| 0 <= i < users.len() && (#[trigger] users[i]).id == id
}

/// No identifier occurs twice in `users`.
pub open spec fn distinct_ids(users: Users) -> bool {
    forall|i: int, j: int|
        0 <= i < j < users.len() ==> (#[trigger] users[i]).id != (#[trigger] users[j]).id
}

/// `stored` is the record that a store keeps for `given`: what the caller
/// supplied is kept, and the timestamps are the store's, whatever `given`
/// held in their place.
pub open spec fn persists(stored: UserView, given: UserView) -> bool {
    &&& stored.id == given.id
    &&& stored.username == given.username
    &&& stored.email == given.email
    &&& stored.role == given.role
    &&& stored.created_at.len() > 0
    &&& stored.updated_at.len() > 0
}

/// The users after `created` was added: it is the newest, so it comes first.
pub open spec fn users_after_create(users: Users, created: UserView) -> Users {
    seq![created] + users
}

/// The users after the identifier `id` was deleted: the others, in the
/// order they had.
pub open spec fn users_after_delete(users: Users, id: Seq<char>) -> Users {
    users.filter(|u: UserView| u.id != id)
}

/// `found` answers the question for the user with the identifier `id`: a
/// user of `users` with that identifier, or nothing when there is none.
pub open spec fn found_by_id(users: Users, id: Seq<char>, found: Option<UserView>) -> bool {
    match found {
        Some(user) => users.contains(user) && user.id == id,
        None => !has_id(users, id),
    }
}

/// The records of a list of users, as plain values.
pub open spec fn user_views(users: Seq<User>) -> Users {
    users.map_values(|u: User| u@)
}

/// The record of an optional user, as plain values.
pub open spec fn optional_user_view(user: Option<User>) -> Option<UserView> {
    match user {
        Some(user) => Some(user@),
        None => None,
    }
}

/// A user that was created under an identifier that was not taken is listed
/// first, and is the user found under that identifier.
pub proof fn lemma_created_user_is_found(users: Users, created: UserView, found: Option<UserView>)
    requires
        !has_id(users, created.id),
        found_by_id(users_after_create(users, created), created.id, found),
    ensures
        users_after_create(users, created).contains(created),
        users_after_create(users, created)[0] == created,
        found == Some(created),
{
    let after = users_after_create(users, created);
    assert(after[0] == created);
    match found {
        Some(user) => {
            let i = choose|i: int| 0 <= i < after.len() && after[i] == user;
            if i > 0 {
                assert(after[i] == users[i - 1]);
                assert(users[i - 1].id == created.id);
            }
        },
        None => {
            assert(after[0].id == created.id);
        },
    }
}

/// Users are listed by recency: of three users created one after the other,
/// the last comes first and the first comes last, ahead of the users that
/// were there before.
pub proof fn lemma_newest_first(users: Users, a: UserView, b: UserView, c: UserView)
    ensures
        users_after_create(users_after_create(users_after_create(users, a), b), c) == seq![c, b, a]
            + users,
        users_after_create(users_after_create(users_after_create(Users::empty(), a), b), c)
            == seq![c, b, a],
{
    assert(users_after_create(users_after_create(users_after_create(users, a), b), c) =~= seq![
        c,
        b,
        a,
    ] + users);
    assert(users_after_create(users_after_create(users_after_create(Users::empty(), a), b), c)
        =~= seq![c, b, a]);
}

/// Creating a user keeps the users that were there, in their order, behind
/// the new one.
pub proof fn lemma_create_keeps_others(users: Users, created: UserView, i: int)
    requires
        0 <= i < users.len(),
    ensures
        users_after_create(users, created).len() == users.len() + 1,
        users_after_create(users, created)[i + 1] == users[i],
{
}

/// An identifier that no user has is found as nothing.
pub proof fn lemma_unknown_id_finds_nothing(users: Users, id: Seq<char>, found: Option<UserView>)
    requires
        !has_id(users, id),
        found_by_id(users, id, found),
    ensures
        found is None,
{
    match found {
        Some(user) => {
            let i = choose|i: int| 0 <= i < users.len() && users[i] == user;
            assert(users[i].id == id);
        },
        None => {},
    }
}

/// After an identifier was deleted no user has it, and the users with
/// other identifiers are still there.
pub proof fn lemma_deleted_id_is_gone(users: Users, id: Seq<char>, other: UserView)
    ensures
        !has_id(users_after_delete(users, id), id),
        users.contains(other) && other.id != id ==> users_after_delete(users, id).contains(other),
        users_after_delete(users, id).len() <= users.len(),
{
    let keep = |u: UserView| u.id != id;
    let after = users_after_delete(users, id);
    assert forall|i: int| 0 <= i < after.len() implies (#[trigger] after[i]).id != id by {
        users.lemma_filter_pred(keep, i);
    }
    if users.contains(other) && other.id != id {
        let i = choose|i: int| 0 <= i < users.len() && users[i] == other;
        users.lemma_filter_contains(keep, i);
    }
    users.lemma_filter_len(keep);
}

/// Where there are no users, the list of the users is empty.
pub proof fn lemma_no_users_lists_nothing(listed: Seq<User>)
    requires
        user_views(listed) == Users::empty(),
    ensures
        listed.len() == 0,
{
    assert(user_views(listed).len() == listed.len());
}

/// The capability to keep user records.
///
/// A store that is `fault_free` answers every request that can be answered;
/// any other store may fail a request and then leaves its users as they
/// were.
pub trait IUserRepository: Send + Sync {
    /// The users that the store holds, the most recently created first.
    ///
    /// A verified store says here what it holds. The default is for stores
    /// outside verified code, which have nothing to say.
    open spec fn users(&self) -> Users {
        Seq::empty()
    }

    /// Whether the store can be relied on to answer. Unless a store says
    /// so, it cannot.
    open spec fn fault_free(&self) -> bool {
        false
    }

    /// Writes `user` as a new record and returns the record as written,
    /// with the store's timestamps. An identifier that is already taken is
    /// refused.
    fn create(&mut self, user: User) -> (r: Result<User, AppError>)
        ensures
            r matches Ok(created) ==> {
                &&& persists(created@, user@)
                &&& !has_id(old(self).users(), user.id@)
                &&& final(self).users() == users_after_create(old(self).users(), created@)
            },
            r is Err ==> final(self).users() == old(self).users(),
            final(self).fault_free() == old(self).fault_free(),
            old(self).fault_free() && !has_id(old(self).users(), user.id@) ==> r is Ok,
    ;

    /// Reads every user, the most recently created first.
    fn list(&self) -> (r: Result<Vec<User>, AppError>)
        ensures
            r matches Ok(listed) ==> user_views(listed@) == self.users(),
            self.fault_free() ==> r is Ok,
    ;

    /// Reads the user with the identifier `id`; `None` when there is none.
    fn find_by_id(&self, id: &str) -> (r: Result<Option<User>, AppError>)
        ensures
            r matches Ok(found) ==> found_by_id(self.users(), id@, optional_user_view(found)),
            self.fault_free() ==> r is Ok,
    ;

    /// Deletes the user with the identifier `id`. Deleting an identifier
    /// that does not exist is an error of kind `NotFound`, and a store
    /// reports that kind for no other reason.
    fn delete(&mut self, id: &str) -> (r: Result<(), AppError>)
        ensures
            r is Ok ==> {
                &&& has_id(old(self).users(), id@)
                &&& final(self).users() == users_after_delete(old(self).users(), id@)
            },
            r is Err ==> final(self).users() == old(self).users(),
            r matches Err(e) ==> (e@.kind == ErrorKind::NotFound ==> !has_id(
                old(self).users(),
                id@,
            )),
            final(self).fault_free() == old(self).fault_free(),
            old(self).fault_free() ==> (r is Ok <==> has_id(old(self).users(), id@)),
            old(self).fault_free() && r is Err ==> r->Err_0@.kind == ErrorKind::NotFound,
    ;
}

} // verus!
