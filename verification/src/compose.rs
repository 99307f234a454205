//! The model of `db-compose.toml`: the databases a project composes.

use vstd::prelude::*;

verus! {

/// The kind of a composed database.
#[derive(Clone, Copy, Debug, PartialEq, Eq, Structural)]
pub enum DbType {
    Rdbms,
    DocumentDb,
    Cache,
    MessageQueue,
}

/// A link shown next to a database.
pub struct DbLink {
    pub internal: bool,
    pub label: String,
    pub icon: String,
    pub link: String,
}

/// One database of the compose file.
pub struct DatabaseEntry {
    pub db_type: DbType,
    pub description: String,
    pub enable: bool,
    pub id: Option<String>,
    pub name: String,
    pub port: String,
    pub studio_port: Option<String>,
    pub links: Vec<DbLink>,
}

/// The whole compose file: a branch, an organization and its databases.
pub struct ComposeConfig {
    pub branch: String,
    pub organization_id: String,
    pub database: Vec<DatabaseEntry>,
}

} // verus!
