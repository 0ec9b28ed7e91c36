//! What the desktop shell asks of the application, apart from its commands
//! and queries.

pub mod commands;
pub mod tray;
