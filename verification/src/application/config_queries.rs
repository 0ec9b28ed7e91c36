//! Reading configuration settings.

use vstd::prelude::*;
use crate::domain::config::{
    config_lookup, lists_exactly, setting_views, GetAllConfigQuery, GetConfigQuery,
    IConfigRepository, SystemSetting,
};
use crate::domain::cqrs::QueryHandler;
use crate::error::AppError;
use crate::text::optional_text;

verus! {

/// Answers the queries that read configuration settings.
pub struct ConfigQueryHandler<R: IConfigRepository> {
    pub repo: R,
}

impl<R: IConfigRepository> ConfigQueryHandler<R> {
    /// A handler that reads from `repo`.
    pub fn new(repo: R) -> (handler: Self)
        ensures
            handler.repo == repo,
    {
        Self { repo }
    }
}

impl<R: IConfigRepository> QueryHandler<GetConfigQuery, Option<String>>
    for ConfigQueryHandler<R> {
    /// The value stored under the key; `None`, and no error, when the key is
    /// not set. The answer is the store's own answer for that key, a failure
    /// included.
    fn handle(&self, query: GetConfigQuery) -> (r: Result<Option<String>, AppError>)
        ensures
            r matches Ok(found) ==> optional_text(found) == config_lookup(
                self.repo.settings(),
                query.key@,
            ),
            self.repo.fault_free() ==> r is Ok,
            exists|key: &str|
                key@ == query.key@ && #[trigger] call_ensures(R::get, (&self.repo, key), r),
    {
        let key = query.key.as_str();
        let answer = self.repo.get(key);
        assert(call_ensures(R::get, (&self.repo, key), answer));
        answer
    }
}

impl<R: IConfigRepository> QueryHandler<GetAllConfigQuery, Vec<SystemSetting>>
    for ConfigQueryHandler<R> {
    /// Every setting, each key once, in no particular order; an empty list
    /// when nothing is set. The answer is the store's own answer, a failure
    /// included.
    fn handle(&self, _query: GetAllConfigQuery) -> (r: Result<Vec<SystemSetting>, AppError>)
        ensures
            r matches Ok(entries) ==> lists_exactly(setting_views(entries@), self.repo.settings()),
            self.repo.fault_free() ==> r is Ok,
            call_ensures(R::get_all, (&self.repo,), r),
    {
        self.repo.get_all()
    }
}

} // verus!
