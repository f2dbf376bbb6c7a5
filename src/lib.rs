//! A small chat bot core: command-token extraction, a command registry with
//! last-registration-wins semantics, the replies of the built-in commands, and
//! the session state machine that drives a chat connection.

pub mod text;
pub mod uptime;
pub mod bot;
pub mod config;
pub mod session;
pub mod report;

