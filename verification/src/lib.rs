//! Core logic of the `ginger-db` database composition tool: the data model,
//! docker output parsing, connection strings and the terminal UI's decisions.

pub mod compose;
pub mod text;
pub mod ui;
pub mod screen;
pub mod docker;
pub mod boot;
pub mod types;
pub mod render;
pub mod setup;
pub mod watch;
pub mod auth;
pub mod settings;
