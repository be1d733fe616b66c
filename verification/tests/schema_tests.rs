use parcel_ingest::schema::{
    catalog_sql, check_table, create_table_sql, type_named, keyword_of, name_of, name_or_empty,
    type_of, ColumnType, SchemaError, StoredColumn, BUILDING_APPRAISED, COLUMN_COUNT, DEEDED_ACRE,
    FULL_OWNER_NAME, ID, LAND_APPRAISED, LAND_USE, OWNER_ADDRESS, OWNER_CITY, OWNER_STATE,
    PARCEL_ID, PHYSICAL_CITY, TABLE_NAME, TOTAL_APPRAISED,
};

/// The columns of the destination table as the store reports them.
fn reported() -> Vec<StoredColumn> {
    (0..COLUMN_COUNT)
        .map(|column| StoredColumn {
            name: name_of(column).to_owned(),
            data_type: match type_of(column) {
                ColumnType::Double => "DOUBLE".to_owned(),
                ColumnType::Text => "VARCHAR".to_owned(),
            },
        })
        .collect()
}

fn expected_statement() -> String {
    let pieces = [
        "CREATE TABLE IF NOT EXISTS parcel (",
        "id DOUBLE, clean_parcel TEXT, county_code DOUBLE, county_name TEXT, ",
        "parcel_id TEXT, district_code DOUBLE, district_name TEXT, map TEXT, ",
        "parcel_number TEXT, suffix TEXT, legal_description TEXT, ",
        "legal_description_1 TEXT, legal_description_2 TEXT, ",
        "full_legal_description TEXT, deeded_acre DOUBLE, calculated_acre DOUBLE, ",
        "tax_year DOUBLE, tax_district TEXT, tax_class TEXT, deed_book TEXT, ",
        "deed_page TEXT, property_class TEXT, property_type TEXT, owner_1 TEXT, ",
        "owner_2 TEXT, full_owner_name TEXT, owner_address TEXT, owner_address_1 TEXT, ",
        "owner_address_2 TEXT, owner_city TEXT, owner_state TEXT, owner_zip TEXT, ",
        "care_of TEXT, full_owner_address TEXT, new_owner TEXT, new_owner_address TEXT, ",
        "new_owner_address_1 TEXT, new_owner_address_2 TEXT, full_new_owner TEXT, ",
        "new_deed_book TEXT, new_deed_page TEXT, physical_number DOUBLE, ",
        "physical_direction TEXT, physical_street TEXT, physical_suffix TEXT, ",
        "physical_unit_type TEXT, physical_city TEXT, physical_zip TEXT, ",
        "physical_unit_id TEXT, full_physical_address TEXT, occupancy_description TEXT, ",
        "hazard_occupancy TEXT, land_use TEXT, land_use_code TEXT, year_built DOUBLE, ",
        "grade TEXT, style_code TEXT, style_description TEXT, commercial DOUBLE, ",
        "stories DOUBLE, commercial_type_1 TEXT, basement_type TEXT, exterior_wall TEXT, ",
        "exterior_1 TEXT, construction TEXT, total_rooms DOUBLE, use_type TEXT, ",
        "business_license DOUBLE, structure_area DOUBLE, cubic_feet DOUBLE, ",
        "units DOUBLE, commercial_type_2 DOUBLE, card DOUBLE, cards DOUBLE, ",
        "dwelling_value DOUBLE, commercial_type_3 DOUBLE, other_building DOUBLE, ",
        "land_appraised DOUBLE, building_appraised DOUBLE, total_appraised DOUBLE, ",
        "sams_address TEXT, sams_city TEXT, sams_state TEXT, sams_zip TEXT, ",
        "pre_address_number TEXT, address_number TEXT, address_number_suffix TEXT, ",
        "full_name TEXT, unit_type TEXT, unit_id TEXT, alternate_unit_type TEXT, ",
        "alternate_unit_id TEXT, flood_risks TEXT, oby_count DOUBLE, sale_price DOUBLE, ",
        "developer_id TEXT, building_permits DOUBLE)",
    ];
    pieces.concat()
}

#[test]
fn table_has_ninety_seven_columns() {
    assert_eq!(COLUMN_COUNT, 97);
    assert_eq!(TABLE_NAME, "parcel");
}

#[test]
fn create_statement_lists_every_column_in_order() {
    assert_eq!(create_table_sql(), expected_statement());
}

#[test]
fn create_statement_is_conditional_and_the_same_every_time() {
    let first = create_table_sql();
    let second = create_table_sql();
    assert_eq!(first, second);
    assert!(first.starts_with("CREATE TABLE IF NOT EXISTS parcel ("));
    assert!(first.ends_with("building_permits DOUBLE)"));
    assert_eq!(first.matches("CREATE TABLE").count(), 1);
}

#[test]
fn create_statement_has_one_clause_per_column() {
    let statement = create_table_sql();
    let inner = &statement["CREATE TABLE IF NOT EXISTS parcel (".len()..statement.len() - 1];
    let clauses: Vec<&str> = inner.split(", ").collect();
    assert_eq!(clauses.len(), COLUMN_COUNT);
    for (column, clause) in clauses.iter().enumerate() {
        let expected = format!("{} {}", name_of(column), keyword_of(type_of(column)));
        assert_eq!(*clause, expected);
    }
}

#[test]
fn column_names_are_in_table_order() {
    let names = [
        "id", "clean_parcel", "county_code", "county_name", "parcel_id", "district_code", "district_name", "map", "parcel_number", "suffix", "legal_description", "legal_description_1", "legal_description_2", "full_legal_description", "deeded_acre", "calculated_acre", "tax_year", "tax_district", "tax_class", "deed_book", "deed_page", "property_class", "property_type", "owner_1", "owner_2", "full_owner_name", "owner_address", "owner_address_1", "owner_address_2", "owner_city", "owner_state", "owner_zip", "care_of", "full_owner_address", "new_owner", "new_owner_address", "new_owner_address_1", "new_owner_address_2", "full_new_owner", "new_deed_book", "new_deed_page", "physical_number", "physical_direction", "physical_street", "physical_suffix", "physical_unit_type", "physical_city", "physical_zip", "physical_unit_id", "full_physical_address", "occupancy_description", "hazard_occupancy", "land_use", "land_use_code", "year_built", "grade", "style_code", "style_description", "commercial", "stories", "commercial_type_1", "basement_type", "exterior_wall", "exterior_1", "construction", "total_rooms", "use_type", "business_license", "structure_area", "cubic_feet", "units", "commercial_type_2", "card", "cards", "dwelling_value", "commercial_type_3", "other_building", "land_appraised", "building_appraised", "total_appraised", "sams_address", "sams_city", "sams_state", "sams_zip", "pre_address_number", "address_number", "address_number_suffix", "full_name", "unit_type", "unit_id", "alternate_unit_type", "alternate_unit_id", "flood_risks", "oby_count", "sale_price", "developer_id", "building_permits",
    ];
    assert_eq!(names.len(), COLUMN_COUNT);
    for (column, name) in names.iter().enumerate() {
        assert_eq!(name_of(column), *name);
    }
}

#[test]
fn column_names_are_distinct() {
    for first in 0..COLUMN_COUNT {
        for second in first + 1..COLUMN_COUNT {
            assert_ne!(name_of(first), name_of(second));
        }
    }
}

#[test]
fn named_positions_name_their_columns() {
    assert_eq!(name_of(ID), "id");
    assert_eq!(name_of(PARCEL_ID), "parcel_id");
    assert_eq!(name_of(DEEDED_ACRE), "deeded_acre");
    assert_eq!(name_of(FULL_OWNER_NAME), "full_owner_name");
    assert_eq!(name_of(OWNER_ADDRESS), "owner_address");
    assert_eq!(name_of(OWNER_CITY), "owner_city");
    assert_eq!(name_of(OWNER_STATE), "owner_state");
    assert_eq!(name_of(PHYSICAL_CITY), "physical_city");
    assert_eq!(name_of(LAND_USE), "land_use");
    assert_eq!(name_of(LAND_APPRAISED), "land_appraised");
    assert_eq!(name_of(BUILDING_APPRAISED), "building_appraised");
    assert_eq!(name_of(TOTAL_APPRAISED), "total_appraised");
}

#[test]
fn column_types_follow_the_table() {
    assert_eq!(type_of(ID), ColumnType::Double);
    assert_eq!(type_of(PARCEL_ID), ColumnType::Text);
    assert_eq!(type_of(FULL_OWNER_NAME), ColumnType::Text);
    assert_eq!(type_of(TOTAL_APPRAISED), ColumnType::Double);
    assert_eq!(type_of(1), ColumnType::Text);
    assert_eq!(type_of(96), ColumnType::Double);
    let numeric = (0..COLUMN_COUNT).filter(|column| type_of(*column) == ColumnType::Double).count();
    assert_eq!(numeric, 27);
    assert_eq!(keyword_of(ColumnType::Double), "DOUBLE");
    assert_eq!(keyword_of(ColumnType::Text), "TEXT");
}

#[test]
fn the_created_table_passes_the_check() {
    assert_eq!(check_table(&reported()), Ok(()));
}

#[test]
fn a_text_column_may_be_reported_under_either_name() {
    let mut stored = reported();
    stored[1].data_type = "TEXT".to_owned();
    assert_eq!(check_table(&stored), Ok(()));
    assert!(type_named(ColumnType::Text, &"TEXT".to_owned()));
    assert!(type_named(ColumnType::Text, &"VARCHAR".to_owned()));
    assert!(!type_named(ColumnType::Text, &"DOUBLE".to_owned()));
    assert!(type_named(ColumnType::Double, &"DOUBLE".to_owned()));
    assert!(!type_named(ColumnType::Double, &"VARCHAR".to_owned()));
    assert!(!type_named(ColumnType::Double, &"double".to_owned()));
    assert!(!type_named(ColumnType::Double, &"FLOAT".to_owned()));
}

#[test]
fn a_table_with_other_columns_is_refused() {
    assert_eq!(check_table(&Vec::new()), Err(SchemaError::ColumnCount { found: 0 }));
    let mut short = reported();
    short.pop();
    assert_eq!(check_table(&short), Err(SchemaError::ColumnCount { found: 96 }));
    let mut long = reported();
    long.push(StoredColumn { name: "extra".to_owned(), data_type: "DOUBLE".to_owned() });
    assert_eq!(check_table(&long), Err(SchemaError::ColumnCount { found: 98 }));
}

#[test]
fn a_renamed_column_is_refused() {
    let mut stored = reported();
    stored[4].name = "parcel".to_owned();
    assert_eq!(check_table(&stored), Err(SchemaError::ColumnName { column: 4 }));
    let mut upper = reported();
    upper[0].name = "ID".to_owned();
    assert_eq!(check_table(&upper), Err(SchemaError::ColumnName { column: 0 }));
}

#[test]
fn columns_out_of_order_are_refused() {
    let mut stored = reported();
    stored.swap(10, 11);
    assert_eq!(check_table(&stored), Err(SchemaError::ColumnName { column: 10 }));
}

#[test]
fn a_column_of_another_type_is_refused() {
    let mut stored = reported();
    stored[79].data_type = "VARCHAR".to_owned();
    assert_eq!(check_table(&stored), Err(SchemaError::ColumnType { column: 79 }));
    let mut integer = reported();
    integer[0].data_type = "INTEGER".to_owned();
    assert_eq!(check_table(&integer), Err(SchemaError::ColumnType { column: 0 }));
}

#[test]
fn the_first_difference_is_named() {
    let mut stored = reported();
    stored[30].data_type = "DOUBLE".to_owned();
    stored[20].name = "other".to_owned();
    stored[20].data_type = "DOUBLE".to_owned();
    assert_eq!(check_table(&stored), Err(SchemaError::ColumnName { column: 20 }));
}

#[test]
fn schema_errors_in_words() {
    assert_eq!(
        SchemaError::ColumnCount { found: 3 }.message(),
        "table parcel has 3 columns, not 97"
    );
    assert_eq!(
        SchemaError::ColumnName { column: 4 }.message(),
        "table parcel: column 4 is not named parcel_id"
    );
    assert_eq!(
        SchemaError::ColumnType { column: 79 }.message(),
        "table parcel: column total_appraised is not of type DOUBLE"
    );
    assert_eq!(
        SchemaError::ColumnType { column: 1 }.message(),
        "table parcel: column clean_parcel is not of type TEXT"
    );
    assert_eq!(
        SchemaError::ColumnName { column: 200 }.message(),
        "table parcel: column 200 is not named "
    );
}

#[test]
fn names_beyond_the_table_are_empty() {
    assert_eq!(name_or_empty(0), "id");
    assert_eq!(name_or_empty(96), "building_permits");
    assert_eq!(name_or_empty(97), "");
    assert_eq!(name_or_empty(usize::MAX), "");
}

#[test]
fn the_catalog_is_asked_with_a_bound_table_name() {
    assert_eq!(
        catalog_sql(),
        "SELECT column_name, data_type FROM information_schema.columns \
         WHERE table_name = ? ORDER BY ordinal_position"
    );
    assert!(!catalog_sql().contains(TABLE_NAME));
}
