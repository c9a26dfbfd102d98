//! Token accounting for AI coding-agent sessions: reading a session log into a
//! summary, the numbers derived from it, and the budget guard that watches a
//! live session.

pub mod session;
pub mod session_log;
pub mod table;
pub mod budget;
pub mod discovery;
pub mod json;
pub mod text;
pub mod token;
