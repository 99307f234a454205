use ginger_db::setup::position_of_db;
use ginger_db::auth::{api_token_from_auth, api_token_from_member, TokenError};
use ginger_db::compose::{ComposeConfig, DatabaseEntry, DbType};
use ginger_db::render::{admin_path, models_path, order_schemas, schema_json_path, schema_plan, SchemaStep};
use ginger_db::setup::{
    add_db, alter_db, consumer_config, decimal, initial_compose_config, orm_options,
    DatabaseChanges, Lang, NewDatabase, Orm,
};
use ginger_db::types::{Data, Schema, SchemaType};
use ginger_db::watch::{eq_ignore_ascii_case, reconnect_delay_secs, watch_action, watch_url, WatchAction};

fn schema(id: &str, t: SchemaType) -> Schema {
    Schema {
        id: id.to_string(),
        rows: vec![],
        data: Data {
            id: id.to_string(),
            table_name: id.to_string(),
            name: id.to_string(),
            options: None,
            docs: None,
        },
        schema_type: t,
    }
}

fn entry(db_type: DbType, name: &str, id: Option<&str>) -> DatabaseEntry {
    DatabaseEntry {
        db_type,
        description: "d".to_string(),
        enable: true,
        id: id.map(|s| s.to_string()),
        name: name.to_string(),
        port: "1".to_string(),
        studio_port: Some("2".to_string()),
        links: vec![],
    }
}

#[test]
fn enumerations_render_before_tables() {
    let ordered = order_schemas(vec![
        schema("t1", SchemaType::Table),
        schema("e1", SchemaType::Enum),
        schema("t2", SchemaType::Table),
        schema("e2", SchemaType::Enum),
    ]);
    let ids: Vec<&str> = ordered.iter().map(|s| s.id.as_str()).collect();
    assert_eq!(ids, vec!["e1", "e2", "t1", "t2"]);
}

#[test]
fn generated_file_paths() {
    assert_eq!(models_path("shop"), "shop/models.py");
    assert_eq!(admin_path("shop"), "shop/admin.py");
    assert_eq!(schema_json_path("shop"), "shop/schema.json");
}

#[test]
fn schema_steps_for_relational_databases() {
    let steps = schema_plan(&[
        entry(DbType::Rdbms, "a", Some("s-1")),
        entry(DbType::Cache, "kv", Some("x")),
        entry(DbType::Rdbms, "b", None),
    ]);
    assert_eq!(steps.len(), 2);
    match &steps[0] {
        SchemaStep::Fetch { db_name, schema_id } => {
            assert_eq!(db_name, "a");
            assert_eq!(schema_id, "s-1");
        }
        _ => panic!("expected a fetch"),
    }
    match &steps[1] {
        SchemaStep::Skip { db_name } => assert_eq!(db_name, "b"),
        _ => panic!("expected a skip"),
    }
}

#[test]
fn orm_choices_per_language() {
    assert_eq!(orm_options(Lang::Python), vec![Orm::SQLAlchemy, Orm::DjangoORM]);
    assert_eq!(orm_options(Lang::Rust), vec![Orm::Diesel]);
    assert_eq!(orm_options(Lang::TS), vec![Orm::TypeORM]);
}

#[test]
fn consumer_configuration() {
    let c = consumer_config("http://localhost:8000".into(), Lang::Python, Orm::DjangoORM, "src".into(), "abc".into());
    assert_eq!(c.schema.url, "http://localhost:8000");
    assert_eq!(c.schema.schema_id.as_deref(), Some("abc"));
    assert!(c.schema.branch.is_none());
    assert!(c.tables.is_empty());
}

#[test]
fn new_compose_file_and_added_database() {
    let mut cfg: ComposeConfig = initial_compose_config("org-1".to_string());
    assert_eq!(cfg.branch, "stage");
    assert_eq!(cfg.organization_id, "org-1");
    assert!(cfg.database.is_empty());
    add_db(
        &mut cfg,
        NewDatabase {
            db_type: DbType::Rdbms,
            description: "main".to_string(),
            enable: true,
            id: None,
            name: "shop".to_string(),
            port: 5432,
            studio_port: None,
        },
    );
    assert_eq!(cfg.database.len(), 1);
    assert_eq!(cfg.database[0].port, "5432");
    assert_eq!(cfg.database[0].name, "shop");
}

#[test]
fn decimal_matches_to_string() {
    for n in [0, 7, 10, 5432, -1, -80, i32::MAX, i32::MIN] {
        assert_eq!(decimal(n), n.to_string());
    }
}

#[test]
fn altering_a_database() {
    let mut cfg = initial_compose_config("org".to_string());
    cfg.database.push(entry(DbType::Rdbms, "a", Some("1")));
    cfg.database.push(entry(DbType::Cache, "b", None));
    cfg.database.push(entry(DbType::Rdbms, "b", None));
    let found = alter_db(
        &mut cfg,
        "b",
        DatabaseChanges {
            name: "c".to_string(),
            port: "6380".to_string(),
            studio_port: String::new(),
            description: "new".to_string(),
        },
    );
    assert!(found);
    assert_eq!(cfg.database[1].name, "c");
    assert_eq!(cfg.database[1].port, "6380");
    assert_eq!(cfg.database[1].studio_port, None);
    assert_eq!(cfg.database[1].db_type, DbType::Cache);
    assert_eq!(cfg.database[2].name, "b");
    assert_eq!(cfg.database[0].name, "a");
    let missing = alter_db(
        &mut cfg,
        "zzz",
        DatabaseChanges {
            name: "x".to_string(),
            port: "1".to_string(),
            studio_port: "9".to_string(),
            description: "x".to_string(),
        },
    );
    assert!(!missing);
    assert_eq!(cfg.database[2].name, "b");
}

#[test]
fn watch_decisions() {
    let id = "schema-1".to_string();
    assert_eq!(watch_action(" render\n", "schema-1", Some(&id)), WatchAction::Render);
    assert_eq!(watch_action("RENDER", "schema-2", Some(&id)), WatchAction::ResourceMismatch);
    assert_eq!(watch_action("Render", "schema-1", None), WatchAction::MissingSchemaId);
    assert_eq!(watch_action("DELETE", "schema-1", Some(&id)), WatchAction::Unhandled);
    assert!(eq_ignore_ascii_case("ReNdEr", "RENDER"));
    assert!(!eq_ignore_ascii_case("rendér", "RENDÉR"));
    assert_eq!(
        watch_url("u1", "tok"),
        "wss://api.gingersociety.org/notification/ws/workspace_u1?token=tok"
    );
}

#[test]
fn reconnect_backoff_doubles_up_to_thirty_two_seconds() {
    let delays: Vec<u64> = (1..=7).map(reconnect_delay_secs).collect();
    assert_eq!(delays, vec![2, 4, 8, 16, 32, 32, 32]);
    assert_eq!(reconnect_delay_secs(0), 1);
}

#[test]
fn api_token_from_auth_file() {
    assert_eq!(api_token_from_auth(r#"{"API_TOKEN": "secret-1"}"#), Ok("secret-1".to_string()));
    assert_eq!(api_token_from_auth(r#"{"API_TOKEN": 5}"#), Err(TokenError::MissingToken));
    assert_eq!(api_token_from_auth(r#"{"other": "x"}"#), Err(TokenError::MissingToken));
    assert_eq!(api_token_from_auth("not json"), Err(TokenError::InvalidJson));
}

#[test]
fn position_of_first_database_with_a_name() {
    let dbs = vec![entry(DbType::Rdbms, "a", None), entry(DbType::Cache, "b", None), entry(DbType::Rdbms, "b", None)];
    assert_eq!(position_of_db(&dbs, "b"), Some(1));
    assert_eq!(position_of_db(&dbs, "a"), Some(0));
    assert_eq!(position_of_db(&dbs, "B"), None);
}

#[test]
fn api_token_from_parsed_member() {
    assert_eq!(api_token_from_member(None), Err(TokenError::InvalidJson));
    assert_eq!(api_token_from_member(Some(None)), Err(TokenError::MissingToken));
    assert_eq!(api_token_from_member(Some(Some("tok".to_string()))), Ok("tok".to_string()));
}
