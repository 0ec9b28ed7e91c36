//! Command and query dispatch for a desktop application.
//!
//! A write is a command and a read is a query. Each kind of request has one
//! handler. A handler does its work through capabilities that its caller
//! supplies: a repository that keeps configuration settings or user records,
//! and, for configuration writes, a publisher that announces each write that
//! succeeded.
//!
//! The contracts speak of what a capability holds: the settings of a store
//! are a map from keys to values, its users a sequence with the newest
//! first, and the events handed to a publisher a sequence with the oldest
//! first. A handler states how its answer and these change together, and
//! that its answer is the store's own answer to the request it passed on.
//!
//! A handler owns the capabilities it is given. Carrying out a command takes
//! the handler by `&mut`, so one caller at a time; callers that share a
//! handler put it behind a lock. The capabilities answer before they
//! return: a store that talks to a database waits for it.
//!
//! A store may fail any request, and then leaves what it holds as it was. A
//! store that declares itself `fault_free` fails none that can be answered;
//! for such a store the contracts say when a request succeeds.

pub mod application;
pub mod domain;
pub mod error;
pub mod infra;
pub mod interface;
pub mod text;
