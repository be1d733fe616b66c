//! The field mapper: from one raw named-field record of the source to one
//! typed parcel record.
//!
//! The mapper is lenient and partial. It reads eight named fields and leaves
//! every other attribute absent; a field that is missing, empty or of another
//! representation than the attribute wants gives an absent attribute, never an
//! error and never a zero or an empty text in its place.

use crate::number::{equals_integer, widens_single, Number};
use crate::parcel_record::{Cell, ParcelRecord};
use crate::schema::{
    BUILDING_APPRAISED, COLUMN_COUNT, DEEDED_ACRE, FULL_OWNER_NAME, ID, LAND_APPRAISED, LAND_USE,
    PARCEL_ID, TOTAL_APPRAISED,
};
use dbase::FieldValue;
use vstd::prelude::*;

verus! {

/// A field of a raw record, as the source reader decoded it. Numbers come as
/// bit patterns: `Numeric`, `Currency` and `Double` in double precision,
/// `Float` in single precision.
#[derive(Clone, Debug, PartialEq, Eq)]
pub enum RawValue {
    /// A text; `None` where the field was blank.
    Character(Option<String>),
    /// A number written out as text in the file; `None` where it was blank.
    Numeric(Option<Number>),
    /// A number written out as text in the file, read in single precision;
    /// `None` where it was blank.
    Float(Option<u32>),
    /// A binary 32-bit integer.
    Integer(i32),
    /// An amount of money.
    Currency(Number),
    /// A binary double-precision number.
    Double(Number),
    /// Any other representation: a truth value, a date, a time stamp, a memo.
    Other,
}

/// `dbase::Record`, a raw record as the source reader hands it out: a map from
/// field names to values. The verifier sees nothing inside it.
#[verifier::external_type_specification]
#[verifier::external_body]
pub struct ExRecord(dbase::Record);

/// The fields of a raw record: to each name that the record holds, its value
/// in the library's own form. Proofs know of it what [`field_of`] says, and
/// nothing else.
pub uninterp spec fn record_fields(record: dbase::Record) -> Map<Seq<char>, RawValue>;

/// The field of the given name, or `None` where the fields hold no such name.
pub open spec fn field_named(fields: Map<Seq<char>, RawValue>, name: Seq<char>) -> Option<
    RawValue,
> {
    if fields.contains_key(name) {
        Some(fields[name])
    } else {
        None
    }
}

/// Looks a field up with `dbase::Record::get`, which reads the record's map of
/// names to values and compares names exactly. The contract is not proved. It
/// claims that the lookup gives the field of that name, or `None` where the
/// record has none, and that the same record and name always give the same.
/// The value found is handed on in the library's own form, variant for
/// variant, a number as its bit pattern.
#[verifier::external_body]
fn field_of(record: &dbase::Record, name: &str) -> (field: Option<RawValue>)
    ensures
        field == field_named(record_fields(*record), name@),
{
    record.get(name).map(|value| match value {
        FieldValue::Character(v) => RawValue::Character(v.clone()),
        FieldValue::Numeric(v) => RawValue::Numeric(v.map(|n| Number::from_bits(n.to_bits()))),
        FieldValue::Float(v) => RawValue::Float(v.map(|n| n.to_bits())),
        FieldValue::Integer(v) => RawValue::Integer(*v),
        FieldValue::Currency(v) => RawValue::Currency(Number::from_bits(v.to_bits())),
        FieldValue::Double(v) => RawValue::Double(Number::from_bits(v.to_bits())),
        _ => RawValue::Other,
    })
}

/// The text attribute that a field gives: the text of a `Character` field that
/// is not blank, as it stands; nothing of anything else.
pub open spec fn text_of(field: Option<RawValue>) -> Option<String> {
    match field {
        Some(RawValue::Character(Some(text))) => Some(text),
        _ => None,
    }
}

/// Whether `number` is the numeric attribute that a field gives. A number in
/// double precision is taken as it is, one in single precision or an integer
/// is widened without change of value; a blank, a missing field and every
/// other representation give nothing.
pub open spec fn number_from(field: Option<RawValue>, number: Option<Number>) -> bool {
    match field {
        Some(RawValue::Numeric(Some(double))) => number == Some(double),
        Some(RawValue::Currency(double)) => number == Some(double),
        Some(RawValue::Double(double)) => number == Some(double),
        Some(RawValue::Float(Some(single))) => number matches Some(wide) && widens_single(
            single,
            wide,
        ),
        Some(RawValue::Integer(integer)) => number matches Some(wide) && equals_integer(
            integer,
            wide,
        ),
        _ => number is None,
    }
}

/// Whether the mapper fills the attribute of the column at position `column`.
pub open spec fn is_mapped_column(column: int) -> bool {
    column == ID || column == PARCEL_ID || column == DEEDED_ACRE || column == FULL_OWNER_NAME
        || column == LAND_USE || column == LAND_APPRAISED || column == BUILDING_APPRAISED || column
        == TOTAL_APPRAISED
}

/// The text attribute that a field gives.
pub fn text_attribute(field: Option<RawValue>) -> (text: Option<String>)
    ensures
        text == text_of(field),
{
    match field {
        Some(RawValue::Character(Some(text))) => Some(text),
        _ => None,
    }
}

/// The numeric attribute that a field gives.
pub fn number_attribute(field: Option<RawValue>) -> (number: Option<Number>)
    ensures
        number_from(field, number),
{
    match field {
        Some(RawValue::Numeric(Some(double))) => Some(double),
        Some(RawValue::Currency(double)) => Some(double),
        Some(RawValue::Double(double)) => Some(double),
        Some(RawValue::Float(Some(single))) => Some(Number::from_single_bits(single)),
        Some(RawValue::Integer(integer)) => Some(Number::from_integer(integer)),
        _ => None,
    }
}

/// The text attribute that the field `field_name` of `record` gives.
pub fn get_string_field(record: &dbase::Record, field_name: &str) -> (text: Option<String>)
    ensures
        text == text_of(field_named(record_fields(*record), field_name@)),
{
    text_attribute(field_of(record, field_name))
}

/// The numeric attribute that the field `field_name` of `record` gives.
pub fn get_numeric_field(record: &dbase::Record, field_name: &str) -> (number: Option<Number>)
    ensures
        number_from(field_named(record_fields(*record), field_name@), number),
{
    number_attribute(field_of(record, field_name))
}

/// Whether `parcel` is what the mapper makes of a record with the given
/// fields: eight attributes read from the fields of their source names, and
/// every other attribute absent.
pub open spec fn is_parcel_of(fields: Map<Seq<char>, RawValue>, parcel: ParcelRecord) -> bool {
    &&& number_from(field_named(fields, "ID"@), parcel.id)
    &&& parcel.full_owner_name == text_of(field_named(fields, "FullOwnerN"@))
    &&& parcel.parcel_id == text_of(field_named(fields, "ParcelID"@))
    &&& number_from(field_named(fields, "DeededAcre"@), parcel.deeded_acre)
    &&& parcel.land_use == text_of(field_named(fields, "LandUse"@))
    &&& number_from(field_named(fields, "LandApprai"@), parcel.land_appraised)
    &&& number_from(field_named(fields, "BuildingAp"@), parcel.building_appraised)
    &&& number_from(field_named(fields, "TotalAppra"@), parcel.total_appraised)
    &&& forall|column: int|
        0 <= column < COLUMN_COUNT && !is_mapped_column(column) ==> #[trigger] parcel@[column]
            == Cell::Null
}

/// Maps a raw record to a parcel. The mapping is total: whatever the record
/// holds, a parcel comes back, with an absent attribute wherever the record
/// has no value of the wanted kind.
pub fn map_record_to_parcel(record: &dbase::Record) -> (parcel: ParcelRecord)
    ensures
        is_parcel_of(record_fields(*record), parcel),
{
    let mut parcel = ParcelRecord::empty();
    let ghost blank = parcel;
    parcel.id = get_numeric_field(record, "ID");
    parcel.full_owner_name = get_string_field(record, "FullOwnerN");
    parcel.parcel_id = get_string_field(record, "ParcelID");
    parcel.deeded_acre = get_numeric_field(record, "DeededAcre");
    parcel.land_use = get_string_field(record, "LandUse");
    parcel.land_appraised = get_numeric_field(record, "LandApprai");
    parcel.building_appraised = get_numeric_field(record, "BuildingAp");
    parcel.total_appraised = get_numeric_field(record, "TotalAppra");
    proof {
        assert forall|column: int|
            0 <= column < COLUMN_COUNT && !is_mapped_column(column) implies #[trigger] parcel@[column]
            == Cell::Null by {
            assert(blank@[column] == Cell::Null);
            assert(parcel.cell(column) == blank.cell(column));
        }
    }
    parcel
}

/// Maps the raw records of a source to parcels: one parcel for each record, in
/// the order of the records.
pub fn map_records(records: &Vec<dbase::Record>) -> (parcels: Vec<ParcelRecord>)
    ensures
        parcels@.len() == records@.len(),
        forall|i: int|
            0 <= i < records@.len() ==> is_parcel_of(
                record_fields(#[trigger] records@[i]),
                parcels@[i],
            ),
{
    let mut parcels: Vec<ParcelRecord> = Vec::with_capacity(records.len());
    let mut index: usize = 0;
    while index < records.len()
        invariant
            index <= records@.len(),
            parcels@.len() == index,
            forall|i: int|
                0 <= i < index ==> is_parcel_of(
                    record_fields(#[trigger] records@[i]),
                    parcels@[i],
                ),
        decreases records@.len() - index,
    {
        parcels.push(map_record_to_parcel(&records[index]));
        index = index + 1;
    }
    parcels
}

} // verus!
