//! What the handlers are wired to: the source of fresh identifiers, stores
//! and a publisher that live in memory, and the rules by which the outside
//! world's answers are taken in.

pub mod failures;
pub mod http;
pub mod identifiers;
pub mod logging;
pub mod memory_config;
pub mod memory_users;
pub mod recording_publisher;
