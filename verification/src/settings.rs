//! The older per-kind layout of the compose settings, which lists
//! relational, document and cache databases separately.

use vstd::prelude::*;

verus! {

/// Compose settings with one list per database kind.
pub struct Config {
    pub branch: String,
    pub organization_id: String,
    pub rdbms: Vec<DatabaseConfig>,
    pub documentdb: Vec<DatabaseConfig>,
    pub cache: Vec<DatabaseConfig>,
}

/// One database of the per-kind settings.
pub struct DatabaseConfig {
    pub description: String,
    pub enable: bool,
    pub id: Option<String>,
    pub name: String,
    pub port: String,
    pub studio_port: Option<String>,
}

} // verus!
