use parcel_ingest::number::Number;
use parcel_ingest::parcel_record::ParcelRecord;
use parcel_ingest::query::{
    names_with_most_parcels_query, owner_count_headers, owner_count_row, owner_value_headers,
    owner_value_row, parcels_by_land_use_query, preview_query, redemption_candidates_query,
    redemption_columns, redemption_headers, redemption_row, show_number, show_number_or_zero,
    show_text, summary_columns, summary_headers, summary_row, summary_rows,
    total_appraised_value_per_owner_query,
    NumberStyle, Shown, PREVIEW_LIMIT, REDEMPTION_LIMIT, REDEMPTION_THRESHOLD,
};
use parcel_ingest::schema::name_of;
use parcel_ingest::text::{decimal_text, digit_text, signed_decimal_text};

fn number(value: f64) -> Number {
    Number::from_bits(value.to_bits())
}

fn text(value: &str) -> Shown {
    Shown::Text(value.to_owned())
}

#[test]
fn decimal_text_of_whole_numbers() {
    assert_eq!(decimal_text(0), "0");
    assert_eq!(decimal_text(7), "7");
    assert_eq!(decimal_text(10), "10");
    assert_eq!(decimal_text(100), "100");
    assert_eq!(decimal_text(50000), "50000");
    assert_eq!(decimal_text(1234567890), "1234567890");
    assert_eq!(decimal_text(u64::MAX), "18446744073709551615");
    for value in 0..2000u64 {
        assert_eq!(decimal_text(value), value.to_string());
    }
}

#[test]
fn decimal_text_of_signed_numbers() {
    assert_eq!(signed_decimal_text(0), "0");
    assert_eq!(signed_decimal_text(2), "2");
    assert_eq!(signed_decimal_text(-1), "-1");
    assert_eq!(signed_decimal_text(-10), "-10");
    assert_eq!(signed_decimal_text(i64::MAX), "9223372036854775807");
    assert_eq!(signed_decimal_text(i64::MIN), "-9223372036854775808");
    assert_eq!(signed_decimal_text(i64::MIN + 1), "-9223372036854775807");
}

#[test]
fn digit_texts() {
    let digits = ["0", "1", "2", "3", "4", "5", "6", "7", "8", "9"];
    for digit in 0..10u64 {
        assert_eq!(digit_text(digit), digits[digit as usize]);
    }
}

#[test]
fn preview_reads_the_first_five_rows() {
    let query = preview_query();
    assert_eq!(PREVIEW_LIMIT, 5);
    assert_eq!(query.sql, "SELECT * FROM parcel LIMIT 5");
    assert!(query.parameters.is_empty());
}

#[test]
fn most_parcels_query_counts_by_owner() {
    let query = names_with_most_parcels_query(2);
    assert_eq!(
        query.sql,
        "SELECT full_owner_name, COUNT(*) AS parcel_count FROM parcel \
         GROUP BY full_owner_name ORDER BY parcel_count DESC LIMIT 2"
    );
    assert!(query.parameters.is_empty());
}

#[test]
fn most_parcels_query_writes_the_limit_in_decimal() {
    assert!(names_with_most_parcels_query(100).sql.ends_with(" DESC LIMIT 100"));
    assert!(names_with_most_parcels_query(0).sql.ends_with(" DESC LIMIT 0"));
    assert!(names_with_most_parcels_query(usize::MAX)
        .sql
        .ends_with(&format!(" DESC LIMIT {}", usize::MAX)));
}

#[test]
fn total_value_query_sums_by_owner() {
    let query = total_appraised_value_per_owner_query(2);
    assert_eq!(
        query.sql,
        "SELECT full_owner_name, SUM(total_appraised) AS total_appraised_value FROM parcel \
         GROUP BY full_owner_name ORDER BY total_appraised_value DESC LIMIT 2"
    );
    assert!(query.parameters.is_empty());
    assert!(total_appraised_value_per_owner_query(100).sql.ends_with(" DESC LIMIT 100"));
}

#[test]
fn land_use_is_bound_and_never_written_into_the_text() {
    let query = parcels_by_land_use_query("Residential");
    assert_eq!(query.sql, "SELECT * FROM parcel WHERE land_use = ?");
    assert_eq!(query.parameters, vec!["Residential".to_owned()]);
    let hostile = parcels_by_land_use_query("x' OR '1'='1'; DROP TABLE parcel; --");
    assert_eq!(hostile.sql, query.sql);
    assert_eq!(hostile.parameters, vec!["x' OR '1'='1'; DROP TABLE parcel; --".to_owned()]);
    let empty = parcels_by_land_use_query("");
    assert_eq!(empty.sql, query.sql);
    assert_eq!(empty.parameters, vec![String::new()]);
}

#[test]
fn redemption_query_is_strict_ordered_and_capped() {
    let query = redemption_candidates_query();
    assert_eq!(REDEMPTION_THRESHOLD, 50000);
    assert_eq!(REDEMPTION_LIMIT, 100);
    assert_eq!(
        query.sql,
        "SELECT id, full_owner_name, parcel_id, total_appraised, owner_address, owner_city, \
         owner_state, physical_city, land_use FROM parcel WHERE total_appraised < 50000 \
         AND (owner_address IS NULL OR owner_address = '') \
         AND (full_owner_name IS NULL OR full_owner_name = '') \
         ORDER BY total_appraised ASC LIMIT 100"
    );
    assert!(query.parameters.is_empty());
    assert!(query.sql.contains("total_appraised < 50000 "));
    assert!(!query.sql.contains("<="));
}

#[test]
fn shown_columns_are_named_in_the_table() {
    let summary: Vec<&str> = summary_columns().iter().map(|column| name_of(*column)).collect();
    assert_eq!(
        summary,
        vec![
            "id",
            "full_owner_name",
            "parcel_id",
            "deeded_acre",
            "land_use",
            "land_appraised",
            "building_appraised",
            "total_appraised",
        ]
    );
    assert_eq!(summary_columns(), vec![0, 25, 4, 14, 52, 77, 78, 79]);
    let redemption: Vec<&str> =
        redemption_columns().iter().map(|column| name_of(*column)).collect();
    assert_eq!(
        redemption,
        vec![
            "id",
            "full_owner_name",
            "parcel_id",
            "total_appraised",
            "owner_address",
            "owner_city",
            "owner_state",
            "physical_city",
            "land_use",
        ]
    );
    assert_eq!(summary_columns().len(), summary_headers().len());
    assert_eq!(redemption_columns().len(), redemption_headers().len());
}

#[test]
fn headers_of_the_reports() {
    assert_eq!(owner_count_headers(), vec!["Owner", "Parcel Count"]);
    assert_eq!(owner_value_headers(), vec!["Owner", "Total Appraised Value"]);
    assert_eq!(
        summary_headers(),
        vec![
            "ID",
            "Owner",
            "Parcel ID",
            "Deeded Acre",
            "Land Use",
            "Land Appraised",
            "Building Appraised",
            "Total Appraised",
        ]
    );
    assert_eq!(
        redemption_headers(),
        vec![
            "ID",
            "Owner",
            "Parcel ID",
            "Total Appraised",
            "Owner Address",
            "Owner City",
            "Owner State",
            "Physical City",
            "Land Use",
        ]
    );
}

#[test]
fn owner_count_rows_for_two_owners() {
    assert_eq!(owner_count_row(&Some("Alice".to_owned()), 2), vec![text("Alice"), text("2")]);
    assert_eq!(owner_count_row(&Some("Bob".to_owned()), 1), vec![text("Bob"), text("1")]);
    assert_eq!(owner_count_row(&None, 12), vec![text("Unknown"), text("12")]);
}

#[test]
fn owner_value_rows_for_two_owners() {
    assert_eq!(
        owner_value_row(&Some("Alice".to_owned()), &Some(number(150000.0))),
        vec![text("Alice"), Shown::Number(number(150000.0), NumberStyle::TwoDecimals)]
    );
    assert_eq!(
        owner_value_row(&Some("Bob".to_owned()), &Some(number(30000.0))),
        vec![text("Bob"), Shown::Number(number(30000.0), NumberStyle::TwoDecimals)]
    );
}

#[test]
fn an_absent_total_counts_as_zero() {
    assert_eq!(
        owner_value_row(&None, &None),
        vec![text("Unknown"), Shown::Number(number(0.0), NumberStyle::TwoDecimals)]
    );
}

fn sample() -> ParcelRecord {
    let mut record = ParcelRecord::empty();
    record.id = Some(number(17.0));
    record.full_owner_name = Some("Alice".to_owned());
    record.parcel_id = Some("02-4-17".to_owned());
    record.deeded_acre = Some(number(1.25));
    record.land_use = Some("Residential".to_owned());
    record.land_appraised = Some(number(30000.0));
    record.building_appraised = Some(number(70000.0));
    record.total_appraised = Some(number(100000.0));
    record
}

#[test]
fn summary_row_of_a_full_parcel() {
    assert_eq!(
        summary_row(&sample(), "Unknown"),
        vec![
            Shown::Number(number(17.0), NumberStyle::Shortest),
            text("Alice"),
            text("02-4-17"),
            Shown::Number(number(1.25), NumberStyle::TwoDecimals),
            text("Residential"),
            Shown::Number(number(30000.0), NumberStyle::TwoDecimals),
            Shown::Number(number(70000.0), NumberStyle::TwoDecimals),
            Shown::Number(number(100000.0), NumberStyle::TwoDecimals),
        ]
    );
}

#[test]
fn summary_row_of_an_empty_parcel() {
    let unknown = summary_row(&ParcelRecord::empty(), "Unknown");
    assert_eq!(
        unknown,
        vec![
            text(""),
            text("Unknown"),
            text("Unknown"),
            text(""),
            text("Unknown"),
            text(""),
            text(""),
            text(""),
        ]
    );
    let blank = summary_row(&ParcelRecord::empty(), "");
    assert_eq!(blank, vec![text(""); 8]);
}

#[test]
fn redemption_row_of_a_candidate() {
    let mut record = ParcelRecord::empty();
    record.id = Some(number(3.0));
    record.parcel_id = Some("02-9-3".to_owned());
    record.total_appraised = Some(number(49999.99));
    record.owner_address = Some(String::new());
    record.physical_city = Some("Martinsburg".to_owned());
    assert_eq!(
        redemption_row(&record),
        vec![
            Shown::Number(number(3.0), NumberStyle::Shortest),
            text("Unknown"),
            text("02-9-3"),
            Shown::Number(number(49999.99), NumberStyle::TwoDecimals),
            text(""),
            text("Unknown"),
            text("Unknown"),
            text("Martinsburg"),
            text("Unknown"),
        ]
    );
}

#[test]
fn redemption_row_of_an_empty_parcel() {
    assert_eq!(
        redemption_row(&ParcelRecord::empty()),
        vec![
            text(""),
            text("Unknown"),
            text("Unknown"),
            Shown::Number(number(0.0), NumberStyle::TwoDecimals),
            text("Unknown"),
            text("Unknown"),
            text("Unknown"),
            text("Unknown"),
            text("Unknown"),
        ]
    );
}

#[test]
fn showing_single_attributes() {
    assert_eq!(show_text(&Some("a".to_owned()), "Unknown"), text("a"));
    assert_eq!(show_text(&Some(String::new()), "Unknown"), text(""));
    assert_eq!(show_text(&None, "Unknown"), text("Unknown"));
    assert_eq!(
        show_number(&Some(number(2.0)), NumberStyle::Shortest),
        Shown::Number(number(2.0), NumberStyle::Shortest)
    );
    assert_eq!(show_number(&None, NumberStyle::TwoDecimals), text(""));
    assert_eq!(
        show_number_or_zero(&None, NumberStyle::TwoDecimals),
        Shown::Number(Number::from_bits(0), NumberStyle::TwoDecimals)
    );
}

#[test]
fn summary_rows_of_the_first_records() {
    let mut records = Vec::new();
    for id in 0..7 {
        let mut record = ParcelRecord::empty();
        record.id = Some(number(id as f64));
        records.push(record);
    }
    let first = summary_rows(&records, 5, "");
    assert_eq!(first.len(), 5);
    for (index, row) in first.iter().enumerate() {
        assert_eq!(*row, summary_row(&records[index], ""));
        assert_eq!(row[0], Shown::Number(number(index as f64), NumberStyle::Shortest));
    }
    assert_eq!(summary_rows(&records, 7, "Unknown").len(), 7);
    assert_eq!(summary_rows(&records, 100, "Unknown").len(), 7);
    assert_eq!(summary_rows(&records, usize::MAX, "Unknown").len(), 7);
    assert!(summary_rows(&records, 0, "").is_empty());
    assert!(summary_rows(&Vec::new(), 5, "").is_empty());
}
