//! Reading users.

use vstd::prelude::*;
use crate::domain::cqrs::QueryHandler;
use crate::domain::users::{
    found_by_id, optional_user_view, user_views, GetUserByIdQuery, IUserRepository,
    ListUsersQuery, User,
};
use crate::error::AppError;

verus! {

/// Answers the queries that read users.
pub struct UserQueryHandler<R: IUserRepository> {
    pub repo: R,
}

impl<R: IUserRepository> UserQueryHandler<R> {
    /// A handler that reads from `repo`.
    pub fn new(repo: R) -> (handler: Self)
        ensures
            handler.repo == repo,
    {
        Self { repo }
    }
}

impl<R: IUserRepository> QueryHandler<ListUsersQuery, Vec<User>> for UserQueryHandler<R> {
    /// Every user, the most recently created first; an empty list when
    /// there is none. The answer is the store's own answer, a failure
    /// included.
    fn handle(&self, _query: ListUsersQuery) -> (r: Result<Vec<User>, AppError>)
        ensures
            r matches Ok(listed) ==> user_views(listed@) == self.repo.users(),
            self.repo.fault_free() ==> r is Ok,
            call_ensures(R::list, (&self.repo,), r),
    {
        self.repo.list()
    }
}

impl<R: IUserRepository> QueryHandler<GetUserByIdQuery, Option<User>>
    for UserQueryHandler<R> {
    /// The user with the given identifier; `None`, and no error, when there
    /// is none. The answer is the store's own answer for that identifier, a
    /// failure included.
    fn handle(&self, query: GetUserByIdQuery) -> (r: Result<Option<User>, AppError>)
        ensures
            r matches Ok(found) ==> found_by_id(
                self.repo.users(),
                query.id@,
                optional_user_view(found),
            ),
            self.repo.fault_free() ==> r is Ok,
            exists|id: &str|
                id@ == query.id@ && #[trigger] call_ensures(R::find_by_id, (&self.repo, id), r),
    {
        let id = query.id.as_str();
        let answer = self.repo.find_by_id(id);
        assert(call_ensures(R::find_by_id, (&self.repo, id), answer));
        answer
    }
}

} // verus!
