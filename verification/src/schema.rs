//! The destination table: its name, and its columns in the one order that table
//! creation and row insertion share.

use crate::text::{decimal, decimal_text};
use vstd::prelude::*;
use vstd::string::StringExecFns;

verus! {

/// Name of the destination table.
pub const TABLE_NAME: &'static str = "parcel";

/// Number of columns of the destination table.
pub const COLUMN_COUNT: usize = 97;

/// The type of a column in the store.
#[derive(Clone, Copy, Debug, PartialEq, Eq, Structural)]
pub enum ColumnType {
    /// A double-precision number.
    Double,
    /// A text of any length.
    Text,
}

/// The names of the columns, in the order of the table.
pub const COLUMN_NAMES: [&'static str; 97] = [
    "id",
    "clean_parcel",
    "county_code",
    "county_name",
    "parcel_id",
    "district_code",
    "district_name",
    "map",
    "parcel_number",
    "suffix",
    "legal_description",
    "legal_description_1",
    "legal_description_2",
    "full_legal_description",
    "deeded_acre",
    "calculated_acre",
    "tax_year",
    "tax_district",
    "tax_class",
    "deed_book",
    "deed_page",
    "property_class",
    "property_type",
    "owner_1",
    "owner_2",
    "full_owner_name",
    "owner_address",
    "owner_address_1",
    "owner_address_2",
    "owner_city",
    "owner_state",
    "owner_zip",
    "care_of",
    "full_owner_address",
    "new_owner",
    "new_owner_address",
    "new_owner_address_1",
    "new_owner_address_2",
    "full_new_owner",
    "new_deed_book",
    "new_deed_page",
    "physical_number",
    "physical_direction",
    "physical_street",
    "physical_suffix",
    "physical_unit_type",
    "physical_city",
    "physical_zip",
    "physical_unit_id",
    "full_physical_address",
    "occupancy_description",
    "hazard_occupancy",
    "land_use",
    "land_use_code",
    "year_built",
    "grade",
    "style_code",
    "style_description",
    "commercial",
    "stories",
    "commercial_type_1",
    "basement_type",
    "exterior_wall",
    "exterior_1",
    "construction",
    "total_rooms",
    "use_type",
    "business_license",
    "structure_area",
    "cubic_feet",
    "units",
    "commercial_type_2",
    "card",
    "cards",
    "dwelling_value",
    "commercial_type_3",
    "other_building",
    "land_appraised",
    "building_appraised",
    "total_appraised",
    "sams_address",
    "sams_city",
    "sams_state",
    "sams_zip",
    "pre_address_number",
    "address_number",
    "address_number_suffix",
    "full_name",
    "unit_type",
    "unit_id",
    "alternate_unit_type",
    "alternate_unit_id",
    "flood_risks",
    "oby_count",
    "sale_price",
    "developer_id",
    "building_permits",
];

/// The types of the columns, in the order of the table.
pub const COLUMN_TYPES: [ColumnType; 97] = [
    ColumnType::Double,
    ColumnType::Text,
    ColumnType::Double,
    ColumnType::Text,
    ColumnType::Text,
    ColumnType::Double,
    ColumnType::Text,
    ColumnType::Text,
    ColumnType::Text,
    ColumnType::Text,
    ColumnType::Text,
    ColumnType::Text,
    ColumnType::Text,
    ColumnType::Text,
    ColumnType::Double,
    ColumnType::Double,
    ColumnType::Double,
    ColumnType::Text,
    ColumnType::Text,
    ColumnType::Text,
    ColumnType::Text,
    ColumnType::Text,
    ColumnType::Text,
    ColumnType::Text,
    ColumnType::Text,
    ColumnType::Text,
    ColumnType::Text,
    ColumnType::Text,
    ColumnType::Text,
    ColumnType::Text,
    ColumnType::Text,
    ColumnType::Text,
    ColumnType::Text,
    ColumnType::Text,
    ColumnType::Text,
    ColumnType::Text,
    ColumnType::Text,
    ColumnType::Text,
    ColumnType::Text,
    ColumnType::Text,
    ColumnType::Text,
    ColumnType::Double,
    ColumnType::Text,
    ColumnType::Text,
    ColumnType::Text,
    ColumnType::Text,
    ColumnType::Text,
    ColumnType::Text,
    ColumnType::Text,
    ColumnType::Text,
    ColumnType::Text,
    ColumnType::Text,
    ColumnType::Text,
    ColumnType::Text,
    ColumnType::Double,
    ColumnType::Text,
    ColumnType::Text,
    ColumnType::Text,
    ColumnType::Double,
    ColumnType::Double,
    ColumnType::Text,
    ColumnType::Text,
    ColumnType::Text,
    ColumnType::Text,
    ColumnType::Text,
    ColumnType::Double,
    ColumnType::Text,
    ColumnType::Double,
    ColumnType::Double,
    ColumnType::Double,
    ColumnType::Double,
    ColumnType::Double,
    ColumnType::Double,
    ColumnType::Double,
    ColumnType::Double,
    ColumnType::Double,
    ColumnType::Double,
    ColumnType::Double,
    ColumnType::Double,
    ColumnType::Double,
    ColumnType::Text,
    ColumnType::Text,
    ColumnType::Text,
    ColumnType::Text,
    ColumnType::Text,
    ColumnType::Text,
    ColumnType::Text,
    ColumnType::Text,
    ColumnType::Text,
    ColumnType::Text,
    ColumnType::Text,
    ColumnType::Text,
    ColumnType::Text,
    ColumnType::Double,
    ColumnType::Double,
    ColumnType::Text,
    ColumnType::Double,
];

/// Position of the numeric identifier.
pub const ID: usize = 0;

/// Position of the parcel identifier.
pub const PARCEL_ID: usize = 4;

/// Position of the deeded acreage.
pub const DEEDED_ACRE: usize = 14;

/// Position of the full name of the owner.
pub const FULL_OWNER_NAME: usize = 25;

/// Position of the owner's address.
pub const OWNER_ADDRESS: usize = 26;

/// Position of the owner's city.
pub const OWNER_CITY: usize = 29;

/// Position of the owner's state.
pub const OWNER_STATE: usize = 30;

/// Position of the city in which the parcel lies.
pub const PHYSICAL_CITY: usize = 46;

/// Position of the land use.
pub const LAND_USE: usize = 52;

/// Position of the appraised value of the land.
pub const LAND_APPRAISED: usize = 77;

/// Position of the appraised value of the buildings.
pub const BUILDING_APPRAISED: usize = 78;

/// Position of the total appraised value.
pub const TOTAL_APPRAISED: usize = 79;

/// Name of the column at position `column`; the empty text where the table
/// has no such column.
pub open spec fn column_name(column: int) -> Seq<char> {
    if 0 <= column < COLUMN_COUNT {
        COLUMN_NAMES[column]@
    } else {
        Seq::empty()
    }
}

/// Type of the column at position `column`.
pub open spec fn column_type(column: int) -> ColumnType {
    if 0 <= column < COLUMN_COUNT {
        COLUMN_TYPES[column]
    } else {
        ColumnType::Text
    }
}

/// The keyword by which the store knows a column type.
pub open spec fn type_keyword(column_type: ColumnType) -> Seq<char> {
    match column_type {
        ColumnType::Double => "DOUBLE"@,
        ColumnType::Text => "TEXT"@,
    }
}

/// The declaration of one column: its name, a space, its type.
pub open spec fn column_clause(column: int) -> Seq<char> {
    column_name(column) + " "@ + type_keyword(column_type(column))
}

/// The declarations of the first `count` columns, separated by `", "`.
pub open spec fn column_clauses(count: nat) -> Seq<char>
    decreases count,
{
    if count == 0 {
        Seq::empty()
    } else if count == 1 {
        column_clause(0)
    } else {
        column_clauses((count - 1) as nat) + ", "@ + column_clause(count - 1)
    }
}

/// The statement that creates the destination table unless it is already there.
pub open spec fn create_table_text() -> Seq<char> {
    "CREATE TABLE IF NOT EXISTS "@ + TABLE_NAME@ + " ("@ + column_clauses(COLUMN_COUNT as nat)
        + ")"@
}

/// Name of the column at position `column`.
pub fn name_of(column: usize) -> (name: &'static str)
    requires
        column < COLUMN_COUNT,
    ensures
        name@ == column_name(column as int),
{
    COLUMN_NAMES[column]
}

/// Type of the column at position `column`.
pub fn type_of(column: usize) -> (column_type: ColumnType)
    requires
        column < COLUMN_COUNT,
    ensures
        column_type == self::column_type(column as int),
{
    COLUMN_TYPES[column]
}

/// The keyword by which the store knows `column_type`.
pub fn keyword_of(column_type: ColumnType) -> (keyword: &'static str)
    ensures
        keyword@ == type_keyword(column_type),
{
    match column_type {
        ColumnType::Double => "DOUBLE",
        ColumnType::Text => "TEXT",
    }
}

/// Text of the statement that creates the destination table unless it is
/// already there. The text is the same at every call, so issuing it again
/// against a store that holds the table asks for nothing new.
pub fn create_table_sql() -> (sql: String)
    ensures
        sql@ == create_table_text(),
{
    let mut sql = String::from_str("CREATE TABLE IF NOT EXISTS ");
    sql.append(TABLE_NAME);
    sql.append(" (");
    let ghost head = sql@;
    let mut column: usize = 0;
    while column < COLUMN_COUNT
        invariant
            column <= COLUMN_COUNT,
            head == "CREATE TABLE IF NOT EXISTS "@ + TABLE_NAME@ + " ("@,
            sql@ == head + column_clauses(column as nat),
        decreases COLUMN_COUNT - column,
    {
        if column > 0 {
            sql.append(", ");
        }
        sql.append(name_of(column));
        sql.append(" ");
        sql.append(keyword_of(type_of(column)));
        assert(sql@ == head + column_clauses((column + 1) as nat)) by {
            if column == 0 {
                assert(column_clauses(0) =~= Seq::<char>::empty());
                assert(column_clauses(1) == column_clause(0));
                assert(sql@ =~= head + column_clause(0));
            } else {
                assert(column_clauses((column + 1) as nat) == column_clauses(column as nat) + ", "@
                    + column_clause(column as int));
                assert(sql@ =~= head + (column_clauses(column as nat) + ", "@ + column_clause(
                    column as int,
                )));
            }
        }
        column = column + 1;
    }
    sql.append(")");
    sql
}

/// The named positions are the positions of the columns of those names.
pub proof fn lemma_named_positions()
    ensures
        column_name(ID as int) == "id"@,
        column_name(PARCEL_ID as int) == "parcel_id"@,
        column_name(DEEDED_ACRE as int) == "deeded_acre"@,
        column_name(FULL_OWNER_NAME as int) == "full_owner_name"@,
        column_name(OWNER_ADDRESS as int) == "owner_address"@,
        column_name(OWNER_CITY as int) == "owner_city"@,
        column_name(OWNER_STATE as int) == "owner_state"@,
        column_name(PHYSICAL_CITY as int) == "physical_city"@,
        column_name(LAND_USE as int) == "land_use"@,
        column_name(LAND_APPRAISED as int) == "land_appraised"@,
        column_name(BUILDING_APPRAISED as int) == "building_appraised"@,
        column_name(TOTAL_APPRAISED as int) == "total_appraised"@,
{
}

/// A column of a table as the store's catalog reports it.
#[derive(Clone, Debug, PartialEq, Eq)]
pub struct StoredColumn {
    pub name: String,
    pub data_type: String,
}

/// Why a table that the store holds cannot take the parcels.
#[derive(Clone, Copy, Debug, PartialEq, Eq, Structural)]
pub enum SchemaError {
    /// The table has `found` columns, not `COLUMN_COUNT`.
    ColumnCount { found: usize },
    /// The column at position `column` has another name.
    ColumnName { column: usize },
    /// The column at position `column` has the right name and another type.
    ColumnType { column: usize },
}

/// Whether the store's catalog may call a column of type `column_type` by
/// `data_type`. The catalog knows a text column as `VARCHAR`; `TEXT` is
/// another name for the same type.
pub open spec fn type_is_named(column_type: ColumnType, data_type: Seq<char>) -> bool {
    match column_type {
        ColumnType::Double => data_type == "DOUBLE"@,
        ColumnType::Text => data_type == "VARCHAR"@ || data_type == "TEXT"@,
    }
}

/// Whether a reported column is the column of position `column`: by its name
/// and by its type.
pub open spec fn is_column(stored: StoredColumn, column: int) -> bool {
    stored.name@ == column_name(column) && type_is_named(column_type(column), stored.data_type@)
}

/// Whether a reported table has the structure of the destination table: the
/// same columns, by name and type, in the same order.
pub open spec fn compatible(stored: Seq<StoredColumn>) -> bool {
    &&& stored.len() == COLUMN_COUNT
    &&& forall|column: int| 0 <= column < COLUMN_COUNT ==> is_column(#[trigger] stored[column], column)
}

/// Text of the question to the catalog for the columns of a table, the
/// table's name being the one bound parameter: name and type of each column,
/// in the order of the columns.
pub open spec fn catalog_text() -> Seq<char> {
    "SELECT column_name, data_type FROM information_schema.columns WHERE table_name = ? ORDER BY ordinal_position"@
}

/// Text of the question to the catalog for the columns of a table. The table's
/// name is to be bound to its one placeholder.
pub fn catalog_sql() -> (sql: &'static str)
    ensures
        sql@ == catalog_text(),
{
    "SELECT column_name, data_type FROM information_schema.columns WHERE table_name = ? ORDER BY ordinal_position"
}

/// Whether the store's catalog may call a column of type `column_type` by
/// `data_type`.
pub fn type_named(column_type: ColumnType, data_type: &String) -> (named: bool)
    ensures
        named == type_is_named(column_type, data_type@),
{
    match column_type {
        ColumnType::Double => *data_type == String::from_str("DOUBLE"),
        ColumnType::Text => *data_type == String::from_str("VARCHAR") || *data_type
            == String::from_str("TEXT"),
    }
}

/// Holds the table that the store reports against the destination table. An
/// existing table is taken as it is only if its structure is the same; the
/// error names the first difference, and nothing is altered or reconciled.
pub fn check_table(stored: &Vec<StoredColumn>) -> (result: Result<(), SchemaError>)
    ensures
        result is Ok <==> compatible(stored@),
        result matches Err(SchemaError::ColumnCount { found }) ==> found == stored@.len() && found
            != COLUMN_COUNT,
        stored@.len() != COLUMN_COUNT ==> result is Err && result->Err_0 is ColumnCount,
        result matches Err(SchemaError::ColumnName { column }) ==> {
            &&& column < COLUMN_COUNT == stored@.len()
            &&& forall|before: int| 0 <= before < column ==> is_column(stored@[before], before)
            &&& stored@[column as int].name@ != column_name(column as int)
        },
        result matches Err(SchemaError::ColumnType { column }) ==> {
            &&& column < COLUMN_COUNT == stored@.len()
            &&& forall|before: int| 0 <= before < column ==> is_column(stored@[before], before)
            &&& stored@[column as int].name@ == column_name(column as int)
            &&& !type_is_named(column_type(column as int), stored@[column as int].data_type@)
        },
{
    if stored.len() != COLUMN_COUNT {
        return Err(SchemaError::ColumnCount { found: stored.len() });
    }
    let mut column: usize = 0;
    while column < COLUMN_COUNT
        invariant
            column <= COLUMN_COUNT == stored@.len(),
            forall|before: int| 0 <= before < column ==> is_column(#[trigger] stored@[before], before),
        decreases COLUMN_COUNT - column,
    {
        if stored[column].name != String::from_str(name_of(column)) {
            return Err(SchemaError::ColumnName { column });
        }
        if !type_named(type_of(column), &stored[column].data_type) {
            return Err(SchemaError::ColumnType { column });
        }
        column = column + 1;
    }
    Ok(())
}

/// What an error says, in words.
pub open spec fn error_text(error: SchemaError) -> Seq<char> {
    match error {
        SchemaError::ColumnCount { found } => "table "@ + TABLE_NAME@ + " has "@ + decimal(
            found as nat,
        ) + " columns, not "@ + decimal(COLUMN_COUNT as nat),
        SchemaError::ColumnName { column } => "table "@ + TABLE_NAME@ + ": column "@ + decimal(
            column as nat,
        ) + " is not named "@ + column_name(column as int),
        SchemaError::ColumnType { column } => "table "@ + TABLE_NAME@ + ": column "@
            + column_name(column as int) + " is not of type "@ + type_keyword(
            column_type(column as int),
        ),
    }
}

/// Name of the column at position `column`; the empty text where the table
/// has no such column.
pub fn name_or_empty(column: usize) -> (name: &'static str)
    ensures
        name@ == column_name(column as int),
{
    if column < COLUMN_COUNT {
        name_of(column)
    } else {
        proof {
            reveal_strlit("");
            assert(""@ =~= Seq::<char>::empty());
        }
        ""
    }
}

impl SchemaError {
    /// What the error says, in words.
    pub fn message(&self) -> (text: String)
        ensures
            text@ == error_text(*self),
    {
        let mut text = String::from_str("table ");
        text.append(TABLE_NAME);
        match self {
            SchemaError::ColumnCount { found } => {
                text.append(" has ");
                text.append(decimal_text(*found as u64).as_str());
                text.append(" columns, not ");
                text.append(decimal_text(COLUMN_COUNT as u64).as_str());
            },
            SchemaError::ColumnName { column } => {
                text.append(": column ");
                text.append(decimal_text(*column as u64).as_str());
                text.append(" is not named ");
                text.append(name_or_empty(*column));
            },
            SchemaError::ColumnType { column } => {
                let wanted = if *column < COLUMN_COUNT {
                    type_of(*column)
                } else {
                    ColumnType::Text
                };
                text.append(": column ");
                text.append(name_or_empty(*column));
                text.append(" is not of type ");
                text.append(keyword_of(wanted));
            },
        }
        text
    }
}

/// The table that the create statement makes passes the check: the store
/// reports the created columns under their names, a numeric one as `DOUBLE`
/// and a text one as `VARCHAR`. So ensuring the table a second time, against
/// the table of the first time, is no error.
pub proof fn lemma_created_table_is_compatible(stored: Seq<StoredColumn>)
    requires
        stored.len() == COLUMN_COUNT,
        forall|column: int|
            0 <= column < COLUMN_COUNT ==> (#[trigger] stored[column]).name@ == column_name(column),
        forall|column: int|
            0 <= column < COLUMN_COUNT ==> (#[trigger] stored[column]).data_type@ == (if column_type(
                column,
            ) == ColumnType::Double {
                "DOUBLE"@
            } else {
                "VARCHAR"@
            }),
    ensures
        compatible(stored),
{
}

} // verus!
