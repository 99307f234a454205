//! What the model generator renders and where: the order of the schemas
//! and the files of a database's directory.

use vstd::prelude::*;
use vstd::string::StringExecFns;

use crate::compose::{DatabaseEntry, DbType};
use crate::types::{Schema, SchemaType};

verus! {

/// The schemas of one type, in their order.
pub open spec fn schemas_of_type(s: Seq<Schema>, t: SchemaType) -> Seq<Schema>
    decreases s.len(),
{
    if s.len() == 0 {
        Seq::empty()
    } else if s.last().schema_type == t {
        schemas_of_type(s.drop_last(), t).push(s.last())
    } else {
        schemas_of_type(s.drop_last(), t)
    }
}

/// The order in which schemas are rendered: enumerations before tables,
/// each in the order given, so that tables can refer to the enumerations.
pub open spec fn render_order_spec(s: Seq<Schema>) -> Seq<Schema> {
    schemas_of_type(s, SchemaType::Enum) + schemas_of_type(s, SchemaType::Table)
}

/// Puts the enumerations before the tables, keeping the order within each.
pub fn order_schemas(schemas: Vec<Schema>) -> (r: Vec<Schema>)
    ensures
        r@ == render_order_spec(schemas@),
{
    let ghost all = schemas@;
    let mut enums: Vec<Schema> = Vec::new();
    let mut tables: Vec<Schema> = Vec::new();
    for s in it: schemas
        invariant
            it.seq() == all,
            enums@ == schemas_of_type(all.take(it.index() as int), SchemaType::Enum),
            tables@ == schemas_of_type(all.take(it.index() as int), SchemaType::Table),
    {
        assert(all.take(it.index() + 1).drop_last() =~= all.take(it.index() as int));
        if s.schema_type == SchemaType::Enum {
            enums.push(s);
        } else {
            tables.push(s);
        }
    }
    assert(all.take(all.len() as int) =~= all);
    enums.append(&mut tables);
    enums
}


/// The render order keeps every schema, as many times as it was given, and
/// puts every enumeration before every table.
pub proof fn lemma_render_order_permutes(s: Seq<Schema>)
    ensures
        render_order_spec(s).to_multiset() == s.to_multiset(),
        render_order_spec(s).len() == s.len(),
        forall|i: int|
            0 <= i < schemas_of_type(s, SchemaType::Enum).len() ==> (#[trigger] render_order_spec(
                s,
            )[i]).schema_type == SchemaType::Enum,
        forall|i: int|
            schemas_of_type(s, SchemaType::Enum).len() <= i < s.len() ==> (
            #[trigger] render_order_spec(s)[i]).schema_type == SchemaType::Table,
    decreases s.len(),
{
    broadcast use vstd::multiset::group_multiset_axioms;
    broadcast use vstd::seq_lib::to_multiset_build, vstd::seq_lib::lemma_multiset_commutative;
    broadcast use vstd::seq_lib::to_multiset_len;

    lemma_types_partition(s);
    if s.len() > 0 {
        let t = s.drop_last();
        let x = s.last();
        lemma_render_order_permutes(t);
        assert(s =~= t.push(x));
        let e = schemas_of_type(t, SchemaType::Enum);
        let b = schemas_of_type(t, SchemaType::Table);
        if x.schema_type == SchemaType::Enum {
            assert(render_order_spec(s) == e.push(x) + b);
            assert(render_order_spec(s).to_multiset() =~= e.to_multiset().insert(x).add(
                b.to_multiset(),
            ));
        } else {
            assert(render_order_spec(s) == e + b.push(x));
            assert(render_order_spec(s).to_multiset() =~= e.to_multiset().add(
                b.to_multiset().insert(x),
            ));
        }
        assert(render_order_spec(t).to_multiset() =~= e.to_multiset().add(b.to_multiset()));
        assert(render_order_spec(s).to_multiset() =~= render_order_spec(t).to_multiset().insert(x));
    } else {
        assert(render_order_spec(s) =~= s);
    }
}

/// Every schema of a sequence is an enumeration or a table, and the
/// schemas of a type are all of that type.
proof fn lemma_types_partition(s: Seq<Schema>)
    ensures
        schemas_of_type(s, SchemaType::Enum).len() + schemas_of_type(s, SchemaType::Table).len()
            == s.len(),
        forall|i: int|
            0 <= i < schemas_of_type(s, SchemaType::Enum).len() ==> (#[trigger] schemas_of_type(
                s,
                SchemaType::Enum,
            )[i]).schema_type == SchemaType::Enum,
        forall|i: int|
            0 <= i < schemas_of_type(s, SchemaType::Table).len() ==> (#[trigger] schemas_of_type(
                s,
                SchemaType::Table,
            )[i]).schema_type == SchemaType::Table,
    decreases s.len(),
{
    if s.len() > 0 {
        lemma_types_partition(s.drop_last());
    }
}

/// The path of a generated file in a database's directory.
pub open spec fn db_file_spec(db_name: Seq<char>, file: Seq<char>) -> Seq<char> {
    db_name + "/"@ + file
}

/// Where the models of a database are generated.
pub fn models_path(db_name: &str) -> (p: String)
    ensures
        p@ == db_file_spec(db_name@, "models.py"@),
{
    db_name.to_string().concat("/").concat("models.py")
}

/// Where the admin registrations of a database are generated.
pub fn admin_path(db_name: &str) -> (p: String)
    ensures
        p@ == db_file_spec(db_name@, "admin.py"@),
{
    db_name.to_string().concat("/").concat("admin.py")
}

/// Where the fetched schemas of a database are saved.
pub fn schema_json_path(db_name: &str) -> (p: String)
    ensures
        p@ == db_file_spec(db_name@, "schema.json"@),
{
    db_name.to_string().concat("/").concat("schema.json")
}

/// What bringing the databases up does with a relational database: fetch
/// its schemas by its id, or skip it when it has none (a generic explorer
/// serves it then).
pub enum SchemaStep {
    Skip { db_name: String },
    Fetch { db_name: String, schema_id: String },
}

/// What a step shows: the database and, for a fetch, the schema id.
pub open spec fn step_view(s: SchemaStep) -> (Seq<char>, Option<Seq<char>>) {
    match s {
        SchemaStep::Skip { db_name } => (db_name@, None),
        SchemaStep::Fetch { db_name, schema_id } => (db_name@, Some(schema_id@)),
    }
}

/// The steps for the relational databases among `dbs`, in order.
pub open spec fn schema_plan_spec(dbs: Seq<DatabaseEntry>) -> Seq<(Seq<char>, Option<Seq<char>>)>
    decreases dbs.len(),
{
    if dbs.len() == 0 {
        Seq::empty()
    } else {
        let prev = schema_plan_spec(dbs.drop_last());
        let d = dbs.last();
        if d.db_type == DbType::Rdbms {
            prev.push(
                (
                    d.name@,
                    match d.id {
                        Some(i) => Some(i@),
                        None => None,
                    },
                ),
            )
        } else {
            prev
        }
    }
}

/// Whether a database is relational.
pub open spec fn is_rdbms(d: DatabaseEntry) -> bool {
    d.db_type == DbType::Rdbms
}

/// The database name and schema id of an entry.
pub open spec fn name_and_id(d: DatabaseEntry) -> (Seq<char>, Option<Seq<char>>) {
    (
        d.name@,
        match d.id {
            Some(i) => Some(i@),
            None => None,
        },
    )
}

/// The plan has one step for each relational database and none for any
/// other, in the order of the compose file, each naming the database and
/// its schema id.
pub proof fn lemma_schema_plan_covers_rdbms(dbs: Seq<DatabaseEntry>)
    ensures
        schema_plan_spec(dbs) == dbs.filter(|d: DatabaseEntry| is_rdbms(d)).map_values(
            |d: DatabaseEntry| name_and_id(d),
        ),
    decreases dbs.len(),
{
    reveal(Seq::filter);
    if dbs.len() > 0 {
        lemma_schema_plan_covers_rdbms(dbs.drop_last());
        let f = dbs.drop_last().filter(|d: DatabaseEntry| is_rdbms(d));
        assert(dbs.filter(|d: DatabaseEntry| is_rdbms(d)) == if is_rdbms(dbs.last()) {
            f.push(dbs.last())
        } else {
            f
        });
        if is_rdbms(dbs.last()) {
            assert(f.push(dbs.last()).map_values(|d: DatabaseEntry| name_and_id(d)) =~= f.map_values(
                |d: DatabaseEntry| name_and_id(d),
            ).push(name_and_id(dbs.last())));
        }
    }
}

/// The schema step of each relational database of the compose file.
pub fn schema_plan(dbs: &[DatabaseEntry]) -> (steps: Vec<SchemaStep>)
    ensures
        steps@.map_values(|s: SchemaStep| step_view(s)) == schema_plan_spec(dbs@),
{
    let mut steps: Vec<SchemaStep> = Vec::new();
    let mut i: usize = 0;
    while i < dbs.len()
        invariant
            i <= dbs@.len(),
            steps@.map_values(|s: SchemaStep| step_view(s)) == schema_plan_spec(
                dbs@.take(i as int),
            ),
        decreases dbs.len() - i,
    {
        assert(dbs@.take(i + 1).drop_last() =~= dbs@.take(i as int));
        let d = &dbs[i];
        if d.db_type == DbType::Rdbms {
            let step = match &d.id {
                Some(id) => SchemaStep::Fetch { db_name: d.name.clone(), schema_id: id.clone() },
                None => SchemaStep::Skip { db_name: d.name.clone() },
            };
            let ghost before = steps@;
            let ghost sv = step_view(step);
            steps.push(step);
            assert(steps@.map_values(|s: SchemaStep| step_view(s)) =~= before.map_values(
                |s: SchemaStep| step_view(s),
            ).push(sv));
        }
        i += 1;
    }
    assert(dbs@.take(dbs.len() as int) =~= dbs@);
    steps
}

} // verus!
