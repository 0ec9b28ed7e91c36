//! The vocabulary of the application: commands, queries, the records they
//! act on, the capabilities they are carried out with, and the events that
//! tell observers what changed.

pub mod config;
pub mod cqrs;
pub mod events;
pub mod users;
