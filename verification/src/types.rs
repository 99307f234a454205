//! The schema model that the schema service hands out and the model
//! generator reads.

use vstd::prelude::*;

verus! {

/// What happens to rows that refer to a deleted row.
#[derive(Clone, Copy, Debug, PartialEq, Eq, Structural)]
pub enum OnDeleteOptions {
    Cascade,
    Protect,
    SetNull,
    DoNothing,
}

/// The kind of a model field.
#[derive(Clone, Copy, Debug, PartialEq, Eq, Structural)]
pub enum ColumnType {
    CharField,
    BooleanField,
    DateField,
    DateTimeField,
    ForeignKey,
    BigAutoField,
    PositiveIntegerField,
    FloatField,
    ManyToManyField,
    TextField,
    OneToOneField,
}

/// Whether a schema describes a table or an enumeration.
#[derive(Clone, Copy, Debug, PartialEq, Eq, Structural)]
pub enum SchemaType {
    Table,
    Enum,
}

/// One table or enumeration of a database design.
#[derive(Clone, Debug, PartialEq, Eq)]
pub struct Schema {
    pub id: String,
    pub rows: Vec<Row>,
    pub data: Data,
    pub schema_type: SchemaType,
}

/// One field of a table.
#[derive(Clone, Debug, PartialEq, Eq)]
pub struct Row {
    pub id: String,
    pub data: FieldData,
}

/// A notification that a resource changed.
#[derive(Clone, Debug)]
pub struct WatchContent {
    pub resource_id: String,
    pub event: String,
}

/// The default value of a field.
#[derive(Clone, Debug, PartialEq, Eq)]
pub enum DefaultValue {
    Boolean(bool),
    String(String),
}

/// The description of a field.
#[derive(Clone, Debug, PartialEq, Eq)]
pub struct FieldData {
    pub name: String,
    pub field_name: String,
    pub field_type: ColumnType,
    pub null: Option<bool>,
    pub options_target: Option<String>,
    pub default: Option<DefaultValue>,
    pub max_length: Option<String>,
    pub target: Option<String>,
    pub related_name: Option<String>,
    pub on_delete: Option<OnDeleteOptions>,
    pub auto_now_add: Option<bool>,
    pub auto_now: Option<bool>,
}

/// A reference to another table by id.
#[derive(Debug)]
pub struct ForeignKeyData {
    pub id: String,
}

/// The description of a table or enumeration.
#[derive(Clone, Debug, PartialEq, Eq)]
pub struct Data {
    pub id: String,
    pub table_name: String,
    pub name: String,
    pub options: Option<Vec<OptionData>>,
    pub docs: Option<String>,
}

/// One value of an enumeration.
#[derive(Clone, Debug, PartialEq, Eq)]
pub struct OptionData {
    pub value: String,
    pub label: String,
}

} // verus!
