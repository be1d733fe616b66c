use dbase::{FieldValue, Record};
use parcel_ingest::data_mapper::{
    get_numeric_field, get_string_field, map_record_to_parcel, number_attribute, text_attribute,
    RawValue,
};
use parcel_ingest::number::Number;
use parcel_ingest::parcel_record::{ParcelRecord, Value};

fn number(value: f64) -> Number {
    Number::from_bits(value.to_bits())
}

fn full_record() -> Record {
    let mut record = Record::default();
    record.insert("ID".to_owned(), FieldValue::Numeric(Some(17.0)));
    record.insert("FullOwnerN".to_owned(), FieldValue::Character(Some("Alice Smith".to_owned())));
    record.insert("ParcelID".to_owned(), FieldValue::Character(Some("02-4-17".to_owned())));
    record.insert("DeededAcre".to_owned(), FieldValue::Numeric(Some(1.25)));
    record.insert("LandUse".to_owned(), FieldValue::Character(Some("Residential".to_owned())));
    record.insert("LandApprai".to_owned(), FieldValue::Numeric(Some(30000.0)));
    record.insert("BuildingAp".to_owned(), FieldValue::Numeric(Some(70000.0)));
    record.insert("TotalAppra".to_owned(), FieldValue::Numeric(Some(100000.0)));
    record
}

#[test]
fn maps_the_eight_source_fields() {
    let parcel = map_record_to_parcel(&full_record());
    assert_eq!(parcel.id, Some(number(17.0)));
    assert_eq!(parcel.full_owner_name, Some("Alice Smith".to_owned()));
    assert_eq!(parcel.parcel_id, Some("02-4-17".to_owned()));
    assert_eq!(parcel.deeded_acre, Some(number(1.25)));
    assert_eq!(parcel.land_use, Some("Residential".to_owned()));
    assert_eq!(parcel.land_appraised, Some(number(30000.0)));
    assert_eq!(parcel.building_appraised, Some(number(70000.0)));
    assert_eq!(parcel.total_appraised, Some(number(100000.0)));
}

#[test]
fn leaves_every_other_attribute_absent() {
    let mut record = full_record();
    record.insert("OwnerAddr".to_owned(), FieldValue::Character(Some("1 Main St".to_owned())));
    record.insert("clean_parcel".to_owned(), FieldValue::Character(Some("x".to_owned())));
    let parcel = map_record_to_parcel(&record);
    let filled = parcel.row_values().iter().filter(|value| **value != Value::Null).count();
    assert_eq!(filled, 8);
    assert_eq!(parcel.owner_address, None);
    assert_eq!(parcel.clean_parcel, None);
    assert_eq!(parcel.county_code, None);
    assert_eq!(parcel.sale_price, None);
}

#[test]
fn an_empty_record_maps_to_an_empty_parcel() {
    let parcel = map_record_to_parcel(&Record::default());
    assert_eq!(parcel, ParcelRecord::empty());
}

#[test]
fn a_missing_field_is_absent_not_defaulted() {
    let mut record = full_record();
    record.remove("TotalAppra");
    record.remove("FullOwnerN");
    let parcel = map_record_to_parcel(&record);
    assert_eq!(parcel.total_appraised, None);
    assert_ne!(parcel.total_appraised, Some(number(0.0)));
    assert_eq!(parcel.full_owner_name, None);
    assert_ne!(parcel.full_owner_name, Some(String::new()));
    assert_eq!(parcel.id, Some(number(17.0)));
}

#[test]
fn a_blank_field_is_absent() {
    let mut record = full_record();
    record.insert("ID".to_owned(), FieldValue::Numeric(None));
    record.insert("DeededAcre".to_owned(), FieldValue::Float(None));
    record.insert("LandUse".to_owned(), FieldValue::Character(None));
    let parcel = map_record_to_parcel(&record);
    assert_eq!(parcel.id, None);
    assert_eq!(parcel.deeded_acre, None);
    assert_eq!(parcel.land_use, None);
}

#[test]
fn a_field_of_the_wrong_kind_is_absent() {
    let mut record = full_record();
    record.insert("ID".to_owned(), FieldValue::Character(Some("17".to_owned())));
    record.insert("FullOwnerN".to_owned(), FieldValue::Numeric(Some(1.0)));
    record.insert("ParcelID".to_owned(), FieldValue::Memo("02-4-17".to_owned()));
    record.insert("LandUse".to_owned(), FieldValue::Logical(Some(true)));
    record.insert("TotalAppra".to_owned(), FieldValue::Logical(None));
    let parcel = map_record_to_parcel(&record);
    assert_eq!(parcel.id, None);
    assert_eq!(parcel.full_owner_name, None);
    assert_eq!(parcel.parcel_id, None);
    assert_eq!(parcel.land_use, None);
    assert_eq!(parcel.total_appraised, None);
    assert_eq!(parcel.deeded_acre, Some(number(1.25)));
}

#[test]
fn field_names_are_matched_exactly() {
    let mut record = Record::default();
    record.insert("id".to_owned(), FieldValue::Numeric(Some(1.0)));
    record.insert("FULLOWNERN".to_owned(), FieldValue::Character(Some("Bob".to_owned())));
    record.insert("ParcelID ".to_owned(), FieldValue::Character(Some("p".to_owned())));
    let parcel = map_record_to_parcel(&record);
    assert_eq!(parcel, ParcelRecord::empty());
}

#[test]
fn a_single_precision_number_is_widened() {
    let mut record = Record::default();
    record.insert("ID".to_owned(), FieldValue::Float(Some(7.0)));
    record.insert("DeededAcre".to_owned(), FieldValue::Float(Some(0.1)));
    record.insert("TotalAppra".to_owned(), FieldValue::Float(Some(49999.99)));
    let parcel = map_record_to_parcel(&record);
    assert_eq!(parcel.id, Some(number(7.0)));
    assert_eq!(parcel.deeded_acre, Some(number(0.1f32 as f64)));
    assert_ne!(parcel.deeded_acre, Some(number(0.1)));
    assert_eq!(parcel.total_appraised, Some(number(49999.99f32 as f64)));
}

#[test]
fn an_integer_is_widened() {
    let mut record = Record::default();
    record.insert("ID".to_owned(), FieldValue::Integer(12345));
    record.insert("LandApprai".to_owned(), FieldValue::Integer(-7));
    record.insert("BuildingAp".to_owned(), FieldValue::Integer(0));
    let parcel = map_record_to_parcel(&record);
    assert_eq!(parcel.id, Some(number(12345.0)));
    assert_eq!(parcel.land_appraised, Some(number(-7.0)));
    assert_eq!(parcel.building_appraised, Some(number(0.0)));
}

#[test]
fn other_double_precision_numbers_are_taken_as_they_are() {
    let mut record = Record::default();
    record.insert("TotalAppra".to_owned(), FieldValue::Double(50000.0));
    record.insert("LandApprai".to_owned(), FieldValue::Currency(1234.5678));
    let parcel = map_record_to_parcel(&record);
    assert_eq!(parcel.total_appraised, Some(number(50000.0)));
    assert_eq!(parcel.land_appraised, Some(number(1234.5678)));
}

#[test]
fn a_number_is_not_rounded_or_normalised() {
    let mut record = Record::default();
    record.insert("ID".to_owned(), FieldValue::Numeric(Some(-0.0)));
    record.insert("DeededAcre".to_owned(), FieldValue::Numeric(Some(f64::MIN_POSITIVE / 4.0)));
    record.insert("TotalAppra".to_owned(), FieldValue::Numeric(Some(f64::INFINITY)));
    let parcel = map_record_to_parcel(&record);
    assert_eq!(parcel.id, Some(Number::from_bits(0x8000_0000_0000_0000)));
    assert_eq!(parcel.deeded_acre, Some(number(f64::MIN_POSITIVE / 4.0)));
    assert_eq!(parcel.total_appraised, Some(number(f64::INFINITY)));
}

#[test]
fn text_is_taken_verbatim() {
    let mut record = Record::default();
    record.insert("FullOwnerN".to_owned(), FieldValue::Character(Some("  O'Neil & Söhne ".to_owned())));
    record.insert("ParcelID".to_owned(), FieldValue::Character(Some(String::new())));
    let parcel = map_record_to_parcel(&record);
    assert_eq!(parcel.full_owner_name, Some("  O'Neil & Söhne ".to_owned()));
    assert_eq!(parcel.parcel_id, Some(String::new()));
}

#[test]
fn get_string_field_reads_character_fields_only() {
    let record = full_record();
    assert_eq!(get_string_field(&record, "LandUse"), Some("Residential".to_owned()));
    assert_eq!(get_string_field(&record, "ID"), None);
    assert_eq!(get_string_field(&record, "Nowhere"), None);
}

#[test]
fn get_numeric_field_reads_numbers_only() {
    let record = full_record();
    assert_eq!(get_numeric_field(&record, "ID"), Some(number(17.0)));
    assert_eq!(get_numeric_field(&record, "LandUse"), None);
    assert_eq!(get_numeric_field(&record, "Nowhere"), None);
}

#[test]
fn attributes_of_raw_values() {
    assert_eq!(text_attribute(None), None);
    assert_eq!(text_attribute(Some(RawValue::Character(None))), None);
    assert_eq!(text_attribute(Some(RawValue::Other)), None);
    assert_eq!(text_attribute(Some(RawValue::Integer(3))), None);
    assert_eq!(
        text_attribute(Some(RawValue::Character(Some("a".to_owned())))),
        Some("a".to_owned())
    );
    assert_eq!(number_attribute(None), None);
    assert_eq!(number_attribute(Some(RawValue::Other)), None);
    assert_eq!(number_attribute(Some(RawValue::Numeric(None))), None);
    assert_eq!(number_attribute(Some(RawValue::Float(None))), None);
    assert_eq!(number_attribute(Some(RawValue::Character(Some("1".to_owned())))), None);
    assert_eq!(number_attribute(Some(RawValue::Numeric(Some(number(2.5))))), Some(number(2.5)));
    assert_eq!(number_attribute(Some(RawValue::Double(number(2.5)))), Some(number(2.5)));
    assert_eq!(number_attribute(Some(RawValue::Currency(number(2.5)))), Some(number(2.5)));
    assert_eq!(
        number_attribute(Some(RawValue::Float(Some(2.5f32.to_bits())))),
        Some(number(2.5))
    );
    assert_eq!(number_attribute(Some(RawValue::Integer(-3))), Some(number(-3.0)));
}
