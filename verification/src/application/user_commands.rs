//! Creating and deleting users.

use vstd::prelude::*;
use crate::domain::cqrs::CommandHandler;
use crate::domain::users::{
    has_id, persists, users_after_create, users_after_delete, CreateUserCmd, DeleteUserCmd,
    IUserRepository, User, UserView,
};
use crate::error::{AppError, ErrorKind};
use crate::infra::identifiers::{is_random_uuid_text, random_uuid_text};
use crate::text::optional_text;

verus! {

/// The record that is handed to the store for `cmd` under the identifier
/// `id`: the timestamps are empty, for the store to fill.
pub open spec fn new_record(cmd: CreateUserCmd, id: Seq<char>) -> UserView {
    UserView {
        id,
        username: cmd.username@,
        email: optional_text(cmd.email),
        role: cmd.role@,
        created_at: Seq::empty(),
        updated_at: Seq::empty(),
    }
}

/// Carries out the commands that create and delete users.
pub struct UserCommandHandler<R: IUserRepository> {
    pub repo: R,
}

impl<R: IUserRepository> UserCommandHandler<R> {
    /// A handler that writes to `repo`.
    pub fn new(repo: R) -> (handler: Self)
        ensures
            handler.repo == repo,
    {
        Self { repo }
    }

    /// Creates the user that `cmd` describes under the identifier `id`, and
    /// returns the record as the store wrote it. An identifier that is
    /// already taken is refused. The answer is the store's own answer to
    /// writing the new record, a failure included.
    pub fn create_with_id(&mut self, cmd: CreateUserCmd, id: String) -> (r: Result<User, AppError>)
        ensures
            exists|store: &mut R, user: User|
                user@ == new_record(cmd, id@)
                    && mut_ref_current(store) == old(self).repo
                    && mut_ref_future(store) == final(self).repo
                    && #[trigger] call_ensures(R::create, (store, user), r),
            r matches Ok(created) ==> {
                &&& persists(created@, new_record(cmd, id@))
                &&& !has_id(old(self).repo.users(), id@)
                &&& final(self).repo.users() == users_after_create(
                    old(self).repo.users(),
                    created@,
                )
            },
            r is Err ==> final(self).repo.users() == old(self).repo.users(),
            final(self).repo.fault_free() == old(self).repo.fault_free(),
            old(self).repo.fault_free() && !has_id(old(self).repo.users(), id@) ==> r is Ok,
    {
        self.repo.create(cmd.into_user(id))
    }
}

impl<R: IUserRepository> CommandHandler<CreateUserCmd, User> for UserCommandHandler<R> {
    /// Creates the user under a fresh random identifier and returns the
    /// record as the store wrote it, newest in the store. The timestamps are
    /// the store's. The answer is the store's own answer to writing the new
    /// record, a failure included; on a fault-free store this fails only if
    /// the fresh identifier was already taken.
    fn handle(&mut self, cmd: CreateUserCmd) -> (r: Result<User, AppError>)
        ensures
            exists|store: &mut R, user: User|
                is_random_uuid_text(user@.id) && user@ == new_record(cmd, user@.id)
                    && mut_ref_current(store) == old(self).repo
                    && mut_ref_future(store) == final(self).repo
                    && #[trigger] call_ensures(R::create, (store, user), r),
            r matches Ok(created) ==> {
                &&& is_random_uuid_text(created@.id)
                &&& persists(created@, new_record(cmd, created@.id))
                &&& !has_id(old(self).repo.users(), created@.id)
                &&& final(self).repo.users() == users_after_create(
                    old(self).repo.users(),
                    created@,
                )
            },
            r is Err ==> final(self).repo.users() == old(self).repo.users(),
            final(self).repo.fault_free() == old(self).repo.fault_free(),
            old(self).repo.fault_free() && (forall|id: Seq<char>|
                is_random_uuid_text(id) ==> !has_id(old(self).repo.users(), id)) ==> r is Ok,
    {
        let id = random_uuid_text();
        self.create_with_id(cmd, id)
    }
}

impl<R: IUserRepository> CommandHandler<DeleteUserCmd, ()> for UserCommandHandler<R> {
    /// Deletes the user with the given identifier. An identifier that does
    /// not exist is an error, not a silent success: on a fault-free store it
    /// is reported with the kind `NotFound`. The answer is the store's own
    /// answer to the deletion, a failure included.
    fn handle(&mut self, cmd: DeleteUserCmd) -> (r: Result<(), AppError>)
        ensures
            exists|store: &mut R, id: &str|
                id@ == cmd.id@
                    && mut_ref_current(store) == old(self).repo
                    && mut_ref_future(store) == final(self).repo
                    && #[trigger] call_ensures(R::delete, (store, id), r),
            r is Ok ==> {
                &&& has_id(old(self).repo.users(), cmd.id@)
                &&& final(self).repo.users() == users_after_delete(
                    old(self).repo.users(),
                    cmd.id@,
                )
            },
            r is Err ==> final(self).repo.users() == old(self).repo.users(),
            r matches Err(e) ==> (e@.kind == ErrorKind::NotFound ==> !has_id(
                old(self).repo.users(),
                cmd.id@,
            )),
            final(self).repo.fault_free() == old(self).repo.fault_free(),
            old(self).repo.fault_free() ==> (r is Ok <==> has_id(old(self).repo.users(), cmd.id@)),
            old(self).repo.fault_free() && r is Err ==> r->Err_0@.kind == ErrorKind::NotFound,
    {
        self.repo.delete(cmd.id.as_str())
    }
}

} // verus!
