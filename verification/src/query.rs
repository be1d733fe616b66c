//! The reports: the read-only queries that they put to the store, and the
//! rows that they show of what comes back.
//!
//! A value that a caller supplies reaches the store as a bound parameter and
//! never as part of the query text. The one exception is a row limit, which is
//! an integer of the program's own and is written into the text in decimal.

use crate::number::Number;
use crate::parcel_record::ParcelRecord;
use crate::schema::{
    column_name, name_of, BUILDING_APPRAISED, COLUMN_COUNT, DEEDED_ACRE, FULL_OWNER_NAME, ID,
    LAND_APPRAISED, LAND_USE, OWNER_ADDRESS, OWNER_CITY, OWNER_STATE, PARCEL_ID, PHYSICAL_CITY,
    TABLE_NAME, TOTAL_APPRAISED,
};
use crate::text::{decimal, decimal_text, signed_decimal, signed_decimal_text};
use vstd::prelude::*;
use vstd::string::StringExecFns;

verus! {

/// Number of rows that the preview shows.
pub const PREVIEW_LIMIT: u64 = 5;

/// A parcel is a redemption candidate only if it is appraised below this.
pub const REDEMPTION_THRESHOLD: u64 = 50000;

/// Greatest number of redemption candidates that the search returns.
pub const REDEMPTION_LIMIT: u64 = 100;

/// A query: its text, and the values bound to its `?` placeholders, in order.
#[derive(Clone, Debug, PartialEq, Eq)]
pub struct Query {
    pub sql: String,
    pub parameters: Vec<String>,
}

/// How a number is written out for display.
#[derive(Clone, Copy, Debug, PartialEq, Eq, Structural)]
pub enum NumberStyle {
    /// The shortest decimal text that reads back as the same number.
    Shortest,
    /// Rounded to two decimal places.
    TwoDecimals,
}

/// One cell of a displayed row: a text as it stands, or a number with the
/// style in which to write it.
#[derive(Clone, Debug, PartialEq, Eq)]
pub enum Shown {
    Text(String),
    Number(Number, NumberStyle),
}

/// What a [`Shown`] holds, with a text taken as its characters.
pub enum ShownView {
    Text(Seq<char>),
    Number(Number, NumberStyle),
}

impl View for Shown {
    type V = ShownView;

    open spec fn view(&self) -> ShownView {
        match self {
            Shown::Text(text) => ShownView::Text(text@),
            Shown::Number(number, style) => ShownView::Number(*number, *style),
        }
    }
}

impl DeepView for Shown {
    type V = ShownView;

    open spec fn deep_view(&self) -> ShownView {
        self@
    }
}

/// The characters of each of some texts.
pub open spec fn texts(items: Seq<&'static str>) -> Seq<Seq<char>> {
    Seq::new(items.len(), |i: int| items[i]@)
}

/// The names of the first `count` of the columns at the given positions,
/// separated by `", "`.
pub open spec fn name_list(columns: Seq<usize>, count: nat) -> Seq<char>
    decreases count,
{
    if count == 0 {
        Seq::empty()
    } else if count == 1 {
        column_name(columns[0] as int)
    } else {
        name_list(columns, (count - 1) as nat) + ", "@ + column_name(columns[count - 1] as int)
    }
}

/// The columns that a summary of a parcel shows, in the order shown.
pub open spec fn summary_positions() -> Seq<usize> {
    seq![
        ID,
        FULL_OWNER_NAME,
        PARCEL_ID,
        DEEDED_ACRE,
        LAND_USE,
        LAND_APPRAISED,
        BUILDING_APPRAISED,
        TOTAL_APPRAISED,
    ]
}

/// The columns that the redemption-candidate search shows, in the order
/// shown.
pub open spec fn redemption_positions() -> Seq<usize> {
    seq![
        ID,
        FULL_OWNER_NAME,
        PARCEL_ID,
        TOTAL_APPRAISED,
        OWNER_ADDRESS,
        OWNER_CITY,
        OWNER_STATE,
        PHYSICAL_CITY,
        LAND_USE,
    ]
}

/// Text of the preview: the first rows of the table, whole.
pub open spec fn preview_text() -> Seq<char> {
    "SELECT * FROM "@ + TABLE_NAME@ + " LIMIT "@ + decimal(PREVIEW_LIMIT as nat)
}

/// Text of the search for the owners of the most parcels.
pub open spec fn most_parcels_text(limit: nat) -> Seq<char> {
    "SELECT "@ + column_name(FULL_OWNER_NAME as int) + ", COUNT(*) AS parcel_count FROM "@
        + TABLE_NAME@ + " GROUP BY "@ + column_name(FULL_OWNER_NAME as int)
        + " ORDER BY parcel_count DESC LIMIT "@ + decimal(limit)
}

/// Text of the search for the owners of the greatest total appraised value.
pub open spec fn total_value_text(limit: nat) -> Seq<char> {
    "SELECT "@ + column_name(FULL_OWNER_NAME as int) + ", SUM("@ + column_name(
        TOTAL_APPRAISED as int,
    ) + ") AS total_appraised_value FROM "@ + TABLE_NAME@ + " GROUP BY "@ + column_name(
        FULL_OWNER_NAME as int,
    ) + " ORDER BY total_appraised_value DESC LIMIT "@ + decimal(limit)
}

/// Text of the search for the parcels of one land use; the land use is the one
/// bound parameter.
pub open spec fn land_use_text() -> Seq<char> {
    "SELECT * FROM "@ + TABLE_NAME@ + " WHERE "@ + column_name(LAND_USE as int) + " = ?"@
}

/// Text of the search for redemption candidates: appraised strictly below the
/// threshold, with neither an owner address nor an owner name, the lowest
/// appraisal first, up to the limit.
pub open spec fn redemption_text() -> Seq<char> {
    "SELECT "@ + name_list(redemption_positions(), 9) + " FROM "@ + TABLE_NAME@ + " WHERE "@
        + column_name(TOTAL_APPRAISED as int) + " < "@ + decimal(REDEMPTION_THRESHOLD as nat)
        + " AND ("@ + column_name(OWNER_ADDRESS as int) + " IS NULL OR "@ + column_name(
        OWNER_ADDRESS as int,
    ) + " = '') AND ("@ + column_name(FULL_OWNER_NAME as int) + " IS NULL OR "@ + column_name(
        FULL_OWNER_NAME as int,
    ) + " = '') ORDER BY "@ + column_name(TOTAL_APPRAISED as int) + " ASC LIMIT "@ + decimal(
        REDEMPTION_LIMIT as nat,
    )
}

/// The columns that a summary of a parcel shows, in the order shown.
pub fn summary_columns() -> (columns: Vec<usize>)
    ensures
        columns@ == summary_positions(),
{
    let mut columns: Vec<usize> = Vec::new();
    columns.push(ID);
    columns.push(FULL_OWNER_NAME);
    columns.push(PARCEL_ID);
    columns.push(DEEDED_ACRE);
    columns.push(LAND_USE);
    columns.push(LAND_APPRAISED);
    columns.push(BUILDING_APPRAISED);
    columns.push(TOTAL_APPRAISED);
    assert(columns@ =~= summary_positions());
    columns
}

/// The columns that the redemption-candidate search shows, in the order
/// shown.
pub fn redemption_columns() -> (columns: Vec<usize>)
    ensures
        columns@ == redemption_positions(),
{
    let mut columns: Vec<usize> = Vec::new();
    columns.push(ID);
    columns.push(FULL_OWNER_NAME);
    columns.push(PARCEL_ID);
    columns.push(TOTAL_APPRAISED);
    columns.push(OWNER_ADDRESS);
    columns.push(OWNER_CITY);
    columns.push(OWNER_STATE);
    columns.push(PHYSICAL_CITY);
    columns.push(LAND_USE);
    assert(columns@ =~= redemption_positions());
    columns
}

/// Appends to `sql` the names of the columns at the given positions,
/// separated by `", "`.
fn append_name_list(sql: &mut String, columns: &Vec<usize>)
    requires
        forall|i: int| 0 <= i < columns@.len() ==> columns@[i] < COLUMN_COUNT,
    ensures
        final(sql)@ == old(sql)@ + name_list(columns@, columns@.len()),
{
    let ghost head = sql@;
    let mut index: usize = 0;
    assert(sql@ =~= head + name_list(columns@, 0));
    while index < columns.len()
        invariant
            index <= columns@.len(),
            forall|i: int| 0 <= i < columns@.len() ==> columns@[i] < COLUMN_COUNT,
            sql@ == head + name_list(columns@, index as nat),
        decreases columns@.len() - index,
    {
        if index > 0 {
            sql.append(", ");
        }
        sql.append(name_of(columns[index]));
        assert(sql@ =~= head + name_list(columns@, (index + 1) as nat));
        index = index + 1;
    }
}

/// The preview query: the first `PREVIEW_LIMIT` rows of the table.
pub fn preview_query() -> (query: Query)
    ensures
        query.sql@ == preview_text(),
        query.parameters@.len() == 0,
{
    let mut sql = String::from_str("SELECT * FROM ");
    sql.append(TABLE_NAME);
    sql.append(" LIMIT ");
    sql.append(decimal_text(PREVIEW_LIMIT).as_str());
    Query { sql, parameters: Vec::new() }
}

/// The query for the owners of the most parcels: the rows are grouped by
/// owner name and counted, and the `limit` groups of the highest counts come
/// back, the highest first. Among equal counts the store decides the order.
pub fn names_with_most_parcels_query(limit: usize) -> (query: Query)
    ensures
        query.sql@ == most_parcels_text(limit as nat),
        query.parameters@.len() == 0,
{
    let owner = name_of(FULL_OWNER_NAME);
    let mut sql = String::from_str("SELECT ");
    sql.append(owner);
    sql.append(", COUNT(*) AS parcel_count FROM ");
    sql.append(TABLE_NAME);
    sql.append(" GROUP BY ");
    sql.append(owner);
    sql.append(" ORDER BY parcel_count DESC LIMIT ");
    sql.append(decimal_text(limit as u64).as_str());
    Query { sql, parameters: Vec::new() }
}

/// The query for the owners of the greatest total appraised value: the rows
/// are grouped by owner name, their total appraised values summed without the
/// absent ones, and the `limit` groups of the highest sums come back, the
/// highest first.
pub fn total_appraised_value_per_owner_query(limit: usize) -> (query: Query)
    ensures
        query.sql@ == total_value_text(limit as nat),
        query.parameters@.len() == 0,
{
    let owner = name_of(FULL_OWNER_NAME);
    let mut sql = String::from_str("SELECT ");
    sql.append(owner);
    sql.append(", SUM(");
    sql.append(name_of(TOTAL_APPRAISED));
    sql.append(") AS total_appraised_value FROM ");
    sql.append(TABLE_NAME);
    sql.append(" GROUP BY ");
    sql.append(owner);
    sql.append(" ORDER BY total_appraised_value DESC LIMIT ");
    sql.append(decimal_text(limit as u64).as_str());
    Query { sql, parameters: Vec::new() }
}

/// The query for the parcels whose land use is `land_use_type`. The text is
/// the same whatever the land use: the value is bound, not written in.
pub fn parcels_by_land_use_query(land_use_type: &str) -> (query: Query)
    ensures
        query.sql@ == land_use_text(),
        query.parameters@.len() == 1,
        query.parameters@[0]@ == land_use_type@,
{
    let mut sql = String::from_str("SELECT * FROM ");
    sql.append(TABLE_NAME);
    sql.append(" WHERE ");
    sql.append(name_of(LAND_USE));
    sql.append(" = ?");
    let mut parameters: Vec<String> = Vec::new();
    parameters.push(String::from_str(land_use_type));
    Query { sql, parameters }
}

/// The query for the redemption candidates.
pub fn redemption_candidates_query() -> (query: Query)
    ensures
        query.sql@ == redemption_text(),
        query.parameters@.len() == 0,
{
    let columns = redemption_columns();
    let total = name_of(TOTAL_APPRAISED);
    let address = name_of(OWNER_ADDRESS);
    let owner = name_of(FULL_OWNER_NAME);
    let mut sql = String::from_str("SELECT ");
    append_name_list(&mut sql, &columns);
    sql.append(" FROM ");
    sql.append(TABLE_NAME);
    sql.append(" WHERE ");
    sql.append(total);
    sql.append(" < ");
    sql.append(decimal_text(REDEMPTION_THRESHOLD).as_str());
    sql.append(" AND (");
    sql.append(address);
    sql.append(" IS NULL OR ");
    sql.append(address);
    sql.append(" = '') AND (");
    sql.append(owner);
    sql.append(" IS NULL OR ");
    sql.append(owner);
    sql.append(" = '') ORDER BY ");
    sql.append(total);
    sql.append(" ASC LIMIT ");
    sql.append(decimal_text(REDEMPTION_LIMIT).as_str());
    Query { sql, parameters: Vec::new() }
}

/// The number zero.
pub open spec fn zero() -> Number {
    Number { bits: 0 }
}

/// A text attribute as it is shown: the text, or `missing` where it is absent.
pub open spec fn shown_text(text: Option<String>, missing: Seq<char>) -> ShownView {
    match text {
        Some(text) => ShownView::Text(text@),
        None => ShownView::Text(missing),
    }
}

/// A numeric attribute as it is shown: the number in the given style, or
/// nothing at all where it is absent.
pub open spec fn shown_number(number: Option<Number>, style: NumberStyle) -> ShownView {
    match number {
        Some(number) => ShownView::Number(number, style),
        None => ShownView::Text(Seq::empty()),
    }
}

/// The row shown of an owner and the number of the owner's parcels.
pub open spec fn owner_count_cells(owner: Option<String>, count: int) -> Seq<ShownView> {
    seq![shown_text(owner, "Unknown"@), ShownView::Text(signed_decimal(count))]
}

/// The row shown of an owner and the owner's total appraised value; a total
/// that is absent counts as zero.
pub open spec fn owner_value_cells(owner: Option<String>, total: Option<Number>) -> Seq<
    ShownView,
> {
    seq![
        shown_text(owner, "Unknown"@),
        match total {
            Some(total) => ShownView::Number(total, NumberStyle::TwoDecimals),
            None => ShownView::Number(zero(), NumberStyle::TwoDecimals),
        },
    ]
}

/// The summary row of a parcel: identifier, owner, parcel identifier, deeded
/// acreage, land use and the three appraisals. An absent text shows as
/// `missing`, an absent number as nothing.
pub open spec fn summary_cells(record: ParcelRecord, missing: Seq<char>) -> Seq<ShownView> {
    seq![
        shown_number(record.id, NumberStyle::Shortest),
        shown_text(record.full_owner_name, missing),
        shown_text(record.parcel_id, missing),
        shown_number(record.deeded_acre, NumberStyle::TwoDecimals),
        shown_text(record.land_use, missing),
        shown_number(record.land_appraised, NumberStyle::TwoDecimals),
        shown_number(record.building_appraised, NumberStyle::TwoDecimals),
        shown_number(record.total_appraised, NumberStyle::TwoDecimals),
    ]
}

/// The row shown of a redemption candidate. An absent text shows as
/// `Unknown`, an absent identifier as nothing, an absent appraisal as zero.
pub open spec fn redemption_cells(record: ParcelRecord) -> Seq<ShownView> {
    seq![
        shown_number(record.id, NumberStyle::Shortest),
        shown_text(record.full_owner_name, "Unknown"@),
        shown_text(record.parcel_id, "Unknown"@),
        match record.total_appraised {
            Some(total) => ShownView::Number(total, NumberStyle::TwoDecimals),
            None => ShownView::Number(zero(), NumberStyle::TwoDecimals),
        },
        shown_text(record.owner_address, "Unknown"@),
        shown_text(record.owner_city, "Unknown"@),
        shown_text(record.owner_state, "Unknown"@),
        shown_text(record.physical_city, "Unknown"@),
        shown_text(record.land_use, "Unknown"@),
    ]
}

/// A text attribute as it is shown.
pub fn show_text(text: &Option<String>, missing: &str) -> (shown: Shown)
    ensures
        shown@ == shown_text(*text, missing@),
{
    match text {
        Some(text) => Shown::Text(text.clone()),
        None => Shown::Text(String::from_str(missing)),
    }
}

/// A numeric attribute as it is shown.
pub fn show_number(number: &Option<Number>, style: NumberStyle) -> (shown: Shown)
    ensures
        shown@ == shown_number(*number, style),
{
    match number {
        Some(number) => Shown::Number(*number, style),
        None => Shown::Text(String::new()),
    }
}

/// A numeric attribute as it is shown where absence counts as zero.
pub fn show_number_or_zero(number: &Option<Number>, style: NumberStyle) -> (shown: Shown)
    ensures
        shown@ == match *number {
            Some(number) => ShownView::Number(number, style),
            None => ShownView::Number(zero(), style),
        },
{
    match number {
        Some(number) => Shown::Number(*number, style),
        None => Shown::Number(Number { bits: 0 }, style),
    }
}

/// The titles over owners and their parcel counts.
pub fn owner_count_headers() -> (headers: Vec<&'static str>)
    ensures
        texts(headers@) == seq!["Owner"@, "Parcel Count"@],
{
    let mut headers: Vec<&'static str> = Vec::new();
    headers.push("Owner");
    headers.push("Parcel Count");
    assert(texts(headers@) =~= seq!["Owner"@, "Parcel Count"@]);
    headers
}

/// The titles over owners and their total appraised values.
pub fn owner_value_headers() -> (headers: Vec<&'static str>)
    ensures
        texts(headers@) == seq!["Owner"@, "Total Appraised Value"@],
{
    let mut headers: Vec<&'static str> = Vec::new();
    headers.push("Owner");
    headers.push("Total Appraised Value");
    assert(texts(headers@) =~= seq!["Owner"@, "Total Appraised Value"@]);
    headers
}

/// The titles over summary rows.
pub fn summary_headers() -> (headers: Vec<&'static str>)
    ensures
        texts(headers@) == seq![
            "ID"@,
            "Owner"@,
            "Parcel ID"@,
            "Deeded Acre"@,
            "Land Use"@,
            "Land Appraised"@,
            "Building Appraised"@,
            "Total Appraised"@,
        ],
{
    let mut headers: Vec<&'static str> = Vec::new();
    headers.push("ID");
    headers.push("Owner");
    headers.push("Parcel ID");
    headers.push("Deeded Acre");
    headers.push("Land Use");
    headers.push("Land Appraised");
    headers.push("Building Appraised");
    headers.push("Total Appraised");
    assert(texts(headers@) =~= seq![
        "ID"@,
        "Owner"@,
        "Parcel ID"@,
        "Deeded Acre"@,
        "Land Use"@,
        "Land Appraised"@,
        "Building Appraised"@,
        "Total Appraised"@,
    ]);
    headers
}

/// The titles over redemption candidates.
pub fn redemption_headers() -> (headers: Vec<&'static str>)
    ensures
        texts(headers@) == seq![
            "ID"@,
            "Owner"@,
            "Parcel ID"@,
            "Total Appraised"@,
            "Owner Address"@,
            "Owner City"@,
            "Owner State"@,
            "Physical City"@,
            "Land Use"@,
        ],
{
    let mut headers: Vec<&'static str> = Vec::new();
    headers.push("ID");
    headers.push("Owner");
    headers.push("Parcel ID");
    headers.push("Total Appraised");
    headers.push("Owner Address");
    headers.push("Owner City");
    headers.push("Owner State");
    headers.push("Physical City");
    headers.push("Land Use");
    assert(texts(headers@) =~= seq![
        "ID"@,
        "Owner"@,
        "Parcel ID"@,
        "Total Appraised"@,
        "Owner Address"@,
        "Owner City"@,
        "Owner State"@,
        "Physical City"@,
        "Land Use"@,
    ]);
    headers
}

/// The row shown of an owner and the number of the owner's parcels.
pub fn owner_count_row(owner: &Option<String>, count: i64) -> (row: Vec<Shown>)
    ensures
        row.deep_view() == owner_count_cells(*owner, count as int),
{
    let mut row: Vec<Shown> = Vec::new();
    row.push(show_text(owner, "Unknown"));
    row.push(Shown::Text(signed_decimal_text(count)));
    assert(row.deep_view() =~= owner_count_cells(*owner, count as int));
    row
}

/// The row shown of an owner and the owner's total appraised value.
pub fn owner_value_row(owner: &Option<String>, total: &Option<Number>) -> (row: Vec<Shown>)
    ensures
        row.deep_view() == owner_value_cells(*owner, *total),
{
    let mut row: Vec<Shown> = Vec::new();
    row.push(show_text(owner, "Unknown"));
    row.push(show_number_or_zero(total, NumberStyle::TwoDecimals));
    assert(row.deep_view() =~= owner_value_cells(*owner, *total));
    row
}

/// The summary row of a parcel, an absent text shown as `missing`.
pub fn summary_row(record: &ParcelRecord, missing: &str) -> (row: Vec<Shown>)
    ensures
        row.deep_view() == summary_cells(*record, missing@),
{
    let mut row: Vec<Shown> = Vec::new();
    row.push(show_number(&record.id, NumberStyle::Shortest));
    row.push(show_text(&record.full_owner_name, missing));
    row.push(show_text(&record.parcel_id, missing));
    row.push(show_number(&record.deeded_acre, NumberStyle::TwoDecimals));
    row.push(show_text(&record.land_use, missing));
    row.push(show_number(&record.land_appraised, NumberStyle::TwoDecimals));
    row.push(show_number(&record.building_appraised, NumberStyle::TwoDecimals));
    row.push(show_number(&record.total_appraised, NumberStyle::TwoDecimals));
    assert(row.deep_view() =~= summary_cells(*record, missing@));
    row
}

/// The summary rows of the first `count` of some parcels, or of all of them
/// where they are fewer, in their order.
pub fn summary_rows(records: &Vec<ParcelRecord>, count: usize, missing: &str) -> (rows: Vec<
    Vec<Shown>,
>)
    ensures
        rows@.len() == if count <= records@.len() {
            count as int
        } else {
            records@.len() as int
        },
        forall|i: int|
            0 <= i < rows@.len() ==> (#[trigger] rows@[i]).deep_view() == summary_cells(
                records@[i],
                missing@,
            ),
{
    let shown: usize = if count <= records.len() {
        count
    } else {
        records.len()
    };
    let mut rows: Vec<Vec<Shown>> = Vec::with_capacity(shown);
    let mut index: usize = 0;
    while index < shown
        invariant
            index <= shown <= records@.len(),
            rows@.len() == index,
            forall|i: int|
                0 <= i < index ==> (#[trigger] rows@[i]).deep_view() == summary_cells(
                    records@[i],
                    missing@,
                ),
        decreases shown - index,
    {
        rows.push(summary_row(&records[index], missing));
        index = index + 1;
    }
    rows
}

/// The row shown of a redemption candidate.
pub fn redemption_row(record: &ParcelRecord) -> (row: Vec<Shown>)
    ensures
        row.deep_view() == redemption_cells(*record),
{
    let mut row: Vec<Shown> = Vec::new();
    row.push(show_number(&record.id, NumberStyle::Shortest));
    row.push(show_text(&record.full_owner_name, "Unknown"));
    row.push(show_text(&record.parcel_id, "Unknown"));
    row.push(show_number_or_zero(&record.total_appraised, NumberStyle::TwoDecimals));
    row.push(show_text(&record.owner_address, "Unknown"));
    row.push(show_text(&record.owner_city, "Unknown"));
    row.push(show_text(&record.owner_state, "Unknown"));
    row.push(show_text(&record.physical_city, "Unknown"));
    row.push(show_text(&record.land_use, "Unknown"));
    assert(row.deep_view() =~= redemption_cells(*record));
    row
}

} // verus!
