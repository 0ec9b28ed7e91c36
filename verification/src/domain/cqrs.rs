//! Commands change state, queries read it; each kind of request has exactly
//! one handler.

use vstd::prelude::*;
use crate::error::AppError;

verus! {

/// Marks a request to change the state of the system.
pub trait Command: Send + Sync {}

/// Marks a request to read the state of the system without changing it.
pub trait Query: Send + Sync {}

/// Carries out commands of type `C` and answers each with an `R`.
///
/// What a given handler promises of `handle` is stated where it implements
/// this trait.
pub trait CommandHandler<C: Command, R = ()>: Send + Sync {
    /// Carries out the command.
    fn handle(&mut self, cmd: C) -> Result<R, AppError>;
}

/// Answers queries of type `Q` with an `R`. Taking `&self`, a query handler
/// cannot change the state it reads.
pub trait QueryHandler<Q: Query, R>: Send + Sync {
    /// Answers the query.
    fn handle(&self, query: Q) -> Result<R, AppError>;
}

} // verus!
