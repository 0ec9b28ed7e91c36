//! The handlers: one for the commands and one for the queries of each
//! family of requests.

pub mod config_commands;
pub mod config_queries;
pub mod user_commands;
pub mod user_queries;
