//! Setting a project up: the consumer configuration, a new compose file,
//! and adding or altering one of its databases.

use vstd::prelude::*;

use crate::compose::{ComposeConfig, DatabaseEntry, DbLink, DbType};

verus! {

/// The language a consuming project is written in.
#[derive(Clone, Copy, Debug, PartialEq, Eq, Structural)]
pub enum Lang {
    Rust,
    TS,
    Python,
    Shell,
}

/// The ORM a consuming project uses.
#[derive(Clone, Copy, Debug, PartialEq, Eq, Structural)]
pub enum Orm {
    TypeORM,
    SQLAlchemy,
    DjangoORM,
    Diesel,
}

/// The ORMs offered for a language.
pub open spec fn orm_options_spec(lang: Lang) -> Seq<Orm> {
    match lang {
        Lang::Python => seq![Orm::SQLAlchemy, Orm::DjangoORM],
        Lang::Rust => seq![Orm::Diesel],
        Lang::TS => seq![Orm::TypeORM],
        Lang::Shell => Seq::empty(),
    }
}

/// The ORMs a project in `lang` can choose from.  No ORM is defined for
/// shell projects.
pub fn orm_options(lang: Lang) -> (v: Vec<Orm>)
    requires
        lang != Lang::Shell,
    ensures
        v@ == orm_options_spec(lang),
{
    let mut v: Vec<Orm> = Vec::new();
    match lang {
        Lang::Python => {
            v.push(Orm::SQLAlchemy);
            v.push(Orm::DjangoORM);
        },
        Lang::Rust => {
            v.push(Orm::Diesel);
        },
        Lang::TS => {
            v.push(Orm::TypeORM);
        },
        Lang::Shell => {},
    }
    v
}

/// Where a consuming project finds its schema and generates its models.
pub struct ConsumerSchema {
    pub url: String,
    pub lang: Lang,
    pub orm: Orm,
    pub root: String,
    pub schema_id: Option<String>,
    pub cache_schema_id: Option<String>,
    pub message_queue_schema_id: Option<String>,
    pub branch: Option<String>,
}

/// The `database.toml` of a consuming project.
pub struct ConsumerDbConfig {
    pub schema: ConsumerSchema,
    pub tables: Vec<String>,
}

/// The configuration written for a consuming project from its answers: the
/// schema server, language, ORM, model directory and schema id, with no
/// tables and no other schemas.
pub fn consumer_config(url: String, lang: Lang, orm: Orm, root: String, schema_id: String) -> (c:
    ConsumerDbConfig)
    ensures
        c.schema.url@ == url@,
        c.schema.lang == lang,
        c.schema.orm == orm,
        c.schema.root@ == root@,
        c.schema.schema_id matches Some(s) && s@ == schema_id@,
        c.schema.cache_schema_id is None,
        c.schema.message_queue_schema_id is None,
        c.schema.branch is None,
        c.tables@.len() == 0,
{
    ConsumerDbConfig {
        schema: ConsumerSchema {
            url,
            lang,
            orm,
            root,
            schema_id: Some(schema_id),
            branch: None,
            cache_schema_id: None,
            message_queue_schema_id: None,
        },
        tables: Vec::new(),
    }
}

/// A new compose file for an organization: the `stage` branch and no
/// databases yet.
pub fn initial_compose_config(organization_id: String) -> (c: ComposeConfig)
    ensures
        c.branch@ == "stage"@,
        c.organization_id@ == organization_id@,
        c.database@.len() == 0,
{
    ComposeConfig { branch: "stage".to_string(), organization_id, database: Vec::new() }
}

/// The decimal digits of a natural number.
pub open spec fn digits_spec(n: nat) -> Seq<char>
    decreases n,
{
    if n < 10 {
        seq![((n + 48) as u8) as char]
    } else {
        digits_spec(n / 10).push((((n % 10) + 48) as u8) as char)
    }
}

/// An integer in decimal, with a minus sign when it is negative, as
/// `i32::to_string` writes it.
pub open spec fn decimal_spec(n: int) -> Seq<char> {
    if n < 0 {
        seq!['-'] + digits_spec((-n) as nat)
    } else {
        digits_spec(n as nat)
    }
}

/// The digit character of a value below ten.
fn digit_char(d: u64) -> (c: char)
    requires
        d < 10,
    ensures
        c == ((d + 48) as u8) as char,
{
    match d {
        0 => '0',
        1 => '1',
        2 => '2',
        3 => '3',
        4 => '4',
        5 => '5',
        6 => '6',
        7 => '7',
        8 => '8',
        _ => '9',
    }
}

/// The decimal digits of `n`.
fn digits(n: u64) -> (v: Vec<char>)
    ensures
        v@ == digits_spec(n as nat),
    decreases n,
{
    if n < 10 {
        let mut v: Vec<char> = Vec::new();
        v.push(digit_char(n));
        v
    } else {
        let mut v = digits(n / 10);
        v.push(digit_char(n % 10));
        v
    }
}

/// `n` in decimal, as `i32::to_string` writes it.
pub fn decimal(n: i32) -> (s: String)
    ensures
        s@ == decimal_spec(n as int),
{
    let mut v: Vec<char> = Vec::new();
    let magnitude: u64 = if n < 0 {
        v.push('-');
        (0 - (n as i64)) as u64
    } else {
        n as u64
    };
    let mut d = digits(magnitude);
    v.append(&mut d);
    crate::text::string_from_chars(v.as_slice())
}

/// The answers given when adding a database.
pub struct NewDatabase {
    pub db_type: DbType,
    pub description: String,
    pub enable: bool,
    pub id: Option<String>,
    pub name: String,
    pub port: i32,
    pub studio_port: Option<String>,
}

/// Adds a database to the compose file from the answers given; the port is
/// written in decimal and the database starts with no links.
pub fn add_db(config: &mut ComposeConfig, answers: NewDatabase)
    ensures
        final(config).branch == old(config).branch,
        final(config).organization_id == old(config).organization_id,
        final(config).database@.len() == old(config).database@.len() + 1,
        final(config).database@.drop_last() == old(config).database@,
        ({
            let d = final(config).database@.last();
            &&& d.db_type == answers.db_type
            &&& d.description == answers.description
            &&& d.enable == answers.enable
            &&& d.id == answers.id
            &&& d.name == answers.name
            &&& d.port@ == decimal_spec(answers.port as int)
            &&& d.studio_port == answers.studio_port
            &&& d.links@.len() == 0
        }),
{
    let port = decimal(answers.port);
    let links: Vec<DbLink> = Vec::new();
    config.database.push(
        DatabaseEntry {
            db_type: answers.db_type,
            description: answers.description,
            enable: answers.enable,
            id: answers.id,
            name: answers.name,
            port,
            studio_port: answers.studio_port,
            links,
        },
    );
    assert(final(config).database@.drop_last() =~= old(config).database@);
}


/// The answers given when altering a database.
pub struct DatabaseChanges {
    pub name: String,
    pub port: String,
    pub studio_port: String,
    pub description: String,
}

/// The position of the first database named `name`.
pub open spec fn first_named(dbs: Seq<DatabaseEntry>, name: Seq<char>) -> Option<int>
    decreases dbs.len(),
{
    if dbs.len() == 0 {
        None
    } else {
        match first_named(dbs.drop_last(), name) {
            Some(i) => Some(i),
            None => if dbs.last().name@ == name {
                Some(dbs.len() - 1)
            } else {
                None
            },
        }
    }
}

/// The position of the first database named `name`, whose current values
/// the questions for altering it offer as defaults.
pub fn position_of_db(dbs: &[DatabaseEntry], name: &str) -> (r: Option<usize>)
    ensures
        match first_named(dbs@, name@) {
            Some(i) => r == Some(i as usize),
            None => r is None,
        },
{
    let mut i: usize = 0;
    while i < dbs.len()
        invariant
            i <= dbs@.len(),
            first_named(dbs@.take(i as int), name@) is None,
        decreases dbs.len() - i,
    {
        assert(dbs@.take(i + 1).drop_last() =~= dbs@.take(i as int));
        if crate::text::same_text(dbs[i].name.as_str(), name) {
            assert(dbs@.take(i + 1).last() == dbs@[i as int]);
            proof {
                lemma_first_named_prefix(dbs@, name@, i + 1);
            }
            return Some(i);
        }
        i += 1;
    }
    assert(dbs@.take(dbs.len() as int) =~= dbs@);
    None
}

/// Alters the first database named `selected_name` with the answers given,
/// and tells whether there was one; nothing changes when there is none.
pub fn alter_db(config: &mut ComposeConfig, selected_name: &str, changes: DatabaseChanges) -> (found:
    bool)
    ensures
        found == first_named(old(config).database@, selected_name@) is Some,
        final(config).branch == old(config).branch,
        final(config).organization_id == old(config).organization_id,
        final(config).database@.len() == old(config).database@.len(),
        match first_named(old(config).database@, selected_name@) {
            Some(i) => {
                let before = old(config).database@[i];
                let after = final(config).database@[i];
                &&& forall|j: int|
                    0 <= j < old(config).database@.len() && j != i
                        ==> #[trigger] final(config).database@[j] == old(config).database@[j]
                &&& after.name == changes.name
                &&& after.port == changes.port
                &&& after.description == changes.description
                &&& after.studio_port == (if changes.studio_port@.len() == 0 {
                    None::<String>
                } else {
                    Some(changes.studio_port)
                })
                &&& after.db_type == before.db_type
                &&& after.enable == before.enable
                &&& after.id == before.id
                &&& after.links == before.links
            },
            None => final(config).database@ == old(config).database@,
        },
{
    let ghost dbs = config.database@;
    let n = config.database.len();
    let mut i: usize = 0;
    while i < n
        invariant
            n == dbs.len(),
            dbs == config.database@,
            dbs == old(config).database@,
            config.branch == old(config).branch,
            config.organization_id == old(config).organization_id,
            i <= n,
            first_named(dbs.take(i as int), selected_name@) is None,
        decreases n - i,
    {
        assert(dbs.take(i + 1).drop_last() =~= dbs.take(i as int));
        if crate::text::same_text(config.database[i].name.as_str(), selected_name) {
            assert(dbs.take(i + 1).last() == dbs[i as int]);
            assert(first_named(dbs.take(i + 1), selected_name@) == Some(i as int));
            proof {
                lemma_first_named_prefix(dbs, selected_name@, i + 1);
            }
            let studio_port = if changes.studio_port.as_str().is_empty() {
                None
            } else {
                Some(changes.studio_port)
            };
            let old_entry = config.database.remove(i);
            let entry = DatabaseEntry {
                db_type: old_entry.db_type,
                description: changes.description,
                enable: old_entry.enable,
                id: old_entry.id,
                name: changes.name,
                port: changes.port,
                studio_port,
                links: old_entry.links,
            };
            config.database.insert(i, entry);
            assert forall|j: int| 0 <= j < dbs.len() && j != i implies #[trigger] config.database@[j]
                == dbs[j] by {}
            return true;
        }
        i += 1;
    }
    assert(dbs.take(n as int) =~= dbs);
    false
}

/// A database found among the first `n` is the first one overall.
proof fn lemma_first_named_prefix(dbs: Seq<DatabaseEntry>, name: Seq<char>, n: int)
    requires
        0 <= n <= dbs.len(),
        first_named(dbs.take(n), name) is Some,
    ensures
        first_named(dbs, name) == first_named(dbs.take(n), name),
    decreases dbs.len() - n,
{
    if n < dbs.len() {
        assert(dbs.take(n + 1).drop_last() =~= dbs.take(n));
        lemma_first_named_prefix(dbs, name, n + 1);
    } else {
        assert(dbs.take(n) =~= dbs);
    }
}

} // verus!
