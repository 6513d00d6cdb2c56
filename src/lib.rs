//! Verified core of a supervisor that runs one long-lived `steamcmd`
//! process, frames its standard output into lines, keeps a bounded
//! history of them and broadcasts each line to any number of subscribers.

pub mod ansi;
pub mod auth;
pub mod framer;
pub mod history;
pub mod hub;
pub mod reader;
pub mod schema;
pub mod steamcmd;
pub mod text;
pub mod user;
