//! The typed parcel record, and the row of store values that stands for it.

use crate::number::Number;
use crate::schema::{column_type, ColumnType, COLUMN_COUNT};
use vstd::prelude::*;

verus! {

/// One value of a row, as it is handed to the store.
#[derive(Clone, Debug, PartialEq, Eq)]
pub enum Value {
    /// No value: the store keeps a null, never a default.
    Null,
    /// A number.
    Double(Number),
    /// A text.
    Text(String),
}

/// What a [`Value`] holds, with a text taken as its characters.
pub enum Cell {
    Null,
    Double(Number),
    Text(Seq<char>),
}

impl View for Value {
    type V = Cell;

    open spec fn view(&self) -> Cell {
        match self {
            Value::Null => Cell::Null,
            Value::Double(number) => Cell::Double(*number),
            Value::Text(text) => Cell::Text(text@),
        }
    }
}

impl DeepView for Value {
    type V = Cell;

    open spec fn deep_view(&self) -> Cell {
        self@
    }
}

/// The cell of a numeric attribute.
pub open spec fn number_cell(attribute: Option<Number>) -> Cell {
    match attribute {
        Some(number) => Cell::Double(number),
        None => Cell::Null,
    }
}

/// The cell of a text attribute.
pub open spec fn text_cell(attribute: Option<String>) -> Cell {
    match attribute {
        Some(text) => Cell::Text(text@),
        None => Cell::Null,
    }
}

/// Whether a cell may stand in a column of type `column_type`: a null fits
/// every column, a number a numeric column, a text a text column.
pub open spec fn fits(cell: Cell, column_type: ColumnType) -> bool {
    match cell {
        Cell::Null => true,
        Cell::Double(_) => column_type == ColumnType::Double,
        Cell::Text(_) => column_type == ColumnType::Text,
    }
}

/// A row of `COLUMN_COUNT` cells that are all null.
pub open spec fn null_row() -> Seq<Cell> {
    Seq::new(COLUMN_COUNT as nat, |column: int| Cell::Null)
}

/// One parcel: every attribute is either a value or absent, and absence is
/// neither an empty text nor zero. The fields stand in the order of the
/// destination table's columns.
#[derive(Clone, Debug, PartialEq, Eq)]
pub struct ParcelRecord {
    pub id: Option<Number>,
    pub clean_parcel: Option<String>,
    pub county_code: Option<Number>,
    pub county_name: Option<String>,
    pub parcel_id: Option<String>,
    pub district_code: Option<Number>,
    pub district_name: Option<String>,
    pub map: Option<String>,
    pub parcel_number: Option<String>,
    pub suffix: Option<String>,
    pub legal_description: Option<String>,
    pub legal_description_1: Option<String>,
    pub legal_description_2: Option<String>,
    pub full_legal_description: Option<String>,
    pub deeded_acre: Option<Number>,
    pub calculated_acre: Option<Number>,
    pub tax_year: Option<Number>,
    pub tax_district: Option<String>,
    pub tax_class: Option<String>,
    pub deed_book: Option<String>,
    pub deed_page: Option<String>,
    pub property_class: Option<String>,
    pub property_type: Option<String>,
    pub owner_1: Option<String>,
    pub owner_2: Option<String>,
    pub full_owner_name: Option<String>,
    pub owner_address: Option<String>,
    pub owner_address_1: Option<String>,
    pub owner_address_2: Option<String>,
    pub owner_city: Option<String>,
    pub owner_state: Option<String>,
    pub owner_zip: Option<String>,
    pub care_of: Option<String>,
    pub full_owner_address: Option<String>,
    pub new_owner: Option<String>,
    pub new_owner_address: Option<String>,
    pub new_owner_address_1: Option<String>,
    pub new_owner_address_2: Option<String>,
    pub full_new_owner: Option<String>,
    pub new_deed_book: Option<String>,
    pub new_deed_page: Option<String>,
    pub physical_number: Option<Number>,
    pub physical_direction: Option<String>,
    pub physical_street: Option<String>,
    pub physical_suffix: Option<String>,
    pub physical_unit_type: Option<String>,
    pub physical_city: Option<String>,
    pub physical_zip: Option<String>,
    pub physical_unit_id: Option<String>,
    pub full_physical_address: Option<String>,
    pub occupancy_description: Option<String>,
    pub hazard_occupancy: Option<String>,
    pub land_use: Option<String>,
    pub land_use_code: Option<String>,
    pub year_built: Option<Number>,
    pub grade: Option<String>,
    pub style_code: Option<String>,
    pub style_description: Option<String>,
    pub commercial: Option<Number>,
    pub stories: Option<Number>,
    pub commercial_type_1: Option<String>,
    pub basement_type: Option<String>,
    pub exterior_wall: Option<String>,
    pub exterior_1: Option<String>,
    pub construction: Option<String>,
    pub total_rooms: Option<Number>,
    pub use_type: Option<String>,
    pub business_license: Option<Number>,
    pub structure_area: Option<Number>,
    pub cubic_feet: Option<Number>,
    pub units: Option<Number>,
    pub commercial_type_2: Option<Number>,
    pub card: Option<Number>,
    pub cards: Option<Number>,
    pub dwelling_value: Option<Number>,
    pub commercial_type_3: Option<Number>,
    pub other_building: Option<Number>,
    pub land_appraised: Option<Number>,
    pub building_appraised: Option<Number>,
    pub total_appraised: Option<Number>,
    pub sams_address: Option<String>,
    pub sams_city: Option<String>,
    pub sams_state: Option<String>,
    pub sams_zip: Option<String>,
    pub pre_address_number: Option<String>,
    pub address_number: Option<String>,
    pub address_number_suffix: Option<String>,
    pub full_name: Option<String>,
    pub unit_type: Option<String>,
    pub unit_id: Option<String>,
    pub alternate_unit_type: Option<String>,
    pub alternate_unit_id: Option<String>,
    pub flood_risks: Option<String>,
    pub oby_count: Option<Number>,
    pub sale_price: Option<Number>,
    pub developer_id: Option<String>,
    pub building_permits: Option<Number>,
}

impl View for ParcelRecord {
    type V = Seq<Cell>;

    /// The record as a row: the cell at position `column` is the attribute that
    /// the column of that position stores.
    open spec fn view(&self) -> Seq<Cell> {
        Seq::new(COLUMN_COUNT as nat, |column: int| self.cell(column))
    }
}

/// The value that stands for a numeric attribute.
pub fn number_value(attribute: &Option<Number>) -> (value: Value)
    ensures
        value@ == number_cell(*attribute),
{
    match attribute {
        Some(number) => Value::Double(*number),
        None => Value::Null,
    }
}

/// The value that stands for a text attribute.
pub fn text_value(attribute: &Option<String>) -> (value: Value)
    ensures
        value@ == text_cell(*attribute),
{
    match attribute {
        Some(text) => Value::Text(text.clone()),
        None => Value::Null,
    }
}

impl ParcelRecord {
    /// The attribute stored in the column at position `column`.
    pub open spec fn cell(&self, column: int) -> Cell {
        if column == 0 {
            number_cell(self.id)
        } else if column == 1 {
            text_cell(self.clean_parcel)
        } else if column == 2 {
            number_cell(self.county_code)
        } else if column == 3 {
            text_cell(self.county_name)
        } else if column == 4 {
            text_cell(self.parcel_id)
        } else if column == 5 {
            number_cell(self.district_code)
        } else if column == 6 {
            text_cell(self.district_name)
        } else if column == 7 {
            text_cell(self.map)
        } else if column == 8 {
            text_cell(self.parcel_number)
        } else if column == 9 {
            text_cell(self.suffix)
        } else if column == 10 {
            text_cell(self.legal_description)
        } else if column == 11 {
            text_cell(self.legal_description_1)
        } else if column == 12 {
            text_cell(self.legal_description_2)
        } else if column == 13 {
            text_cell(self.full_legal_description)
        } else if column == 14 {
            number_cell(self.deeded_acre)
        } else if column == 15 {
            number_cell(self.calculated_acre)
        } else if column == 16 {
            number_cell(self.tax_year)
        } else if column == 17 {
            text_cell(self.tax_district)
        } else if column == 18 {
            text_cell(self.tax_class)
        } else if column == 19 {
            text_cell(self.deed_book)
        } else if column == 20 {
            text_cell(self.deed_page)
        } else if column == 21 {
            text_cell(self.property_class)
        } else if column == 22 {
            text_cell(self.property_type)
        } else if column == 23 {
            text_cell(self.owner_1)
        } else if column == 24 {
            text_cell(self.owner_2)
        } else if column == 25 {
            text_cell(self.full_owner_name)
        } else if column == 26 {
            text_cell(self.owner_address)
        } else if column == 27 {
            text_cell(self.owner_address_1)
        } else if column == 28 {
            text_cell(self.owner_address_2)
        } else if column == 29 {
            text_cell(self.owner_city)
        } else if column == 30 {
            text_cell(self.owner_state)
        } else if column == 31 {
            text_cell(self.owner_zip)
        } else if column == 32 {
            text_cell(self.care_of)
        } else if column == 33 {
            text_cell(self.full_owner_address)
        } else if column == 34 {
            text_cell(self.new_owner)
        } else if column == 35 {
            text_cell(self.new_owner_address)
        } else if column == 36 {
            text_cell(self.new_owner_address_1)
        } else if column == 37 {
            text_cell(self.new_owner_address_2)
        } else if column == 38 {
            text_cell(self.full_new_owner)
        } else if column == 39 {
            text_cell(self.new_deed_book)
        } else if column == 40 {
            text_cell(self.new_deed_page)
        } else if column == 41 {
            number_cell(self.physical_number)
        } else if column == 42 {
            text_cell(self.physical_direction)
        } else if column == 43 {
            text_cell(self.physical_street)
        } else if column == 44 {
            text_cell(self.physical_suffix)
        } else if column == 45 {
            text_cell(self.physical_unit_type)
        } else if column == 46 {
            text_cell(self.physical_city)
        } else if column == 47 {
            text_cell(self.physical_zip)
        } else if column == 48 {
            text_cell(self.physical_unit_id)
        } else if column == 49 {
            text_cell(self.full_physical_address)
        } else if column == 50 {
            text_cell(self.occupancy_description)
        } else if column == 51 {
            text_cell(self.hazard_occupancy)
        } else if column == 52 {
            text_cell(self.land_use)
        } else if column == 53 {
            text_cell(self.land_use_code)
        } else if column == 54 {
            number_cell(self.year_built)
        } else if column == 55 {
            text_cell(self.grade)
        } else if column == 56 {
            text_cell(self.style_code)
        } else if column == 57 {
            text_cell(self.style_description)
        } else if column == 58 {
            number_cell(self.commercial)
        } else if column == 59 {
            number_cell(self.stories)
        } else if column == 60 {
            text_cell(self.commercial_type_1)
        } else if column == 61 {
            text_cell(self.basement_type)
        } else if column == 62 {
            text_cell(self.exterior_wall)
        } else if column == 63 {
            text_cell(self.exterior_1)
        } else if column == 64 {
            text_cell(self.construction)
        } else if column == 65 {
            number_cell(self.total_rooms)
        } else if column == 66 {
            text_cell(self.use_type)
        } else if column == 67 {
            number_cell(self.business_license)
        } else if column == 68 {
            number_cell(self.structure_area)
        } else if column == 69 {
            number_cell(self.cubic_feet)
        } else if column == 70 {
            number_cell(self.units)
        } else if column == 71 {
            number_cell(self.commercial_type_2)
        } else if column == 72 {
            number_cell(self.card)
        } else if column == 73 {
            number_cell(self.cards)
        } else if column == 74 {
            number_cell(self.dwelling_value)
        } else if column == 75 {
            number_cell(self.commercial_type_3)
        } else if column == 76 {
            number_cell(self.other_building)
        } else if column == 77 {
            number_cell(self.land_appraised)
        } else if column == 78 {
            number_cell(self.building_appraised)
        } else if column == 79 {
            number_cell(self.total_appraised)
        } else if column == 80 {
            text_cell(self.sams_address)
        } else if column == 81 {
            text_cell(self.sams_city)
        } else if column == 82 {
            text_cell(self.sams_state)
        } else if column == 83 {
            text_cell(self.sams_zip)
        } else if column == 84 {
            text_cell(self.pre_address_number)
        } else if column == 85 {
            text_cell(self.address_number)
        } else if column == 86 {
            text_cell(self.address_number_suffix)
        } else if column == 87 {
            text_cell(self.full_name)
        } else if column == 88 {
            text_cell(self.unit_type)
        } else if column == 89 {
            text_cell(self.unit_id)
        } else if column == 90 {
            text_cell(self.alternate_unit_type)
        } else if column == 91 {
            text_cell(self.alternate_unit_id)
        } else if column == 92 {
            text_cell(self.flood_risks)
        } else if column == 93 {
            number_cell(self.oby_count)
        } else if column == 94 {
            number_cell(self.sale_price)
        } else if column == 95 {
            text_cell(self.developer_id)
        } else if column == 96 {
            number_cell(self.building_permits)
        } else {
            Cell::Null
        }
    }

    /// A record with every attribute absent.
    pub fn empty() -> (record: ParcelRecord)
        ensures
            record@ == null_row(),
    {
        let record = ParcelRecord {
            id: None,
            clean_parcel: None,
            county_code: None,
            county_name: None,
            parcel_id: None,
            district_code: None,
            district_name: None,
            map: None,
            parcel_number: None,
            suffix: None,
            legal_description: None,
            legal_description_1: None,
            legal_description_2: None,
            full_legal_description: None,
            deeded_acre: None,
            calculated_acre: None,
            tax_year: None,
            tax_district: None,
            tax_class: None,
            deed_book: None,
            deed_page: None,
            property_class: None,
            property_type: None,
            owner_1: None,
            owner_2: None,
            full_owner_name: None,
            owner_address: None,
            owner_address_1: None,
            owner_address_2: None,
            owner_city: None,
            owner_state: None,
            owner_zip: None,
            care_of: None,
            full_owner_address: None,
            new_owner: None,
            new_owner_address: None,
            new_owner_address_1: None,
            new_owner_address_2: None,
            full_new_owner: None,
            new_deed_book: None,
            new_deed_page: None,
            physical_number: None,
            physical_direction: None,
            physical_street: None,
            physical_suffix: None,
            physical_unit_type: None,
            physical_city: None,
            physical_zip: None,
            physical_unit_id: None,
            full_physical_address: None,
            occupancy_description: None,
            hazard_occupancy: None,
            land_use: None,
            land_use_code: None,
            year_built: None,
            grade: None,
            style_code: None,
            style_description: None,
            commercial: None,
            stories: None,
            commercial_type_1: None,
            basement_type: None,
            exterior_wall: None,
            exterior_1: None,
            construction: None,
            total_rooms: None,
            use_type: None,
            business_license: None,
            structure_area: None,
            cubic_feet: None,
            units: None,
            commercial_type_2: None,
            card: None,
            cards: None,
            dwelling_value: None,
            commercial_type_3: None,
            other_building: None,
            land_appraised: None,
            building_appraised: None,
            total_appraised: None,
            sams_address: None,
            sams_city: None,
            sams_state: None,
            sams_zip: None,
            pre_address_number: None,
            address_number: None,
            address_number_suffix: None,
            full_name: None,
            unit_type: None,
            unit_id: None,
            alternate_unit_type: None,
            alternate_unit_id: None,
            flood_risks: None,
            oby_count: None,
            sale_price: None,
            developer_id: None,
            building_permits: None,
        };
        assert(record@ =~= null_row());
        record
    }

    /// The value of the attribute stored in the column at position `column`.
    pub fn value_at(&self, column: usize) -> (value: Value)
        requires
            column < COLUMN_COUNT,
        ensures
            value@ == self.cell(column as int),
    {
        if column == 0 {
            number_value(&self.id)
        } else if column == 1 {
            text_value(&self.clean_parcel)
        } else if column == 2 {
            number_value(&self.county_code)
        } else if column == 3 {
            text_value(&self.county_name)
        } else if column == 4 {
            text_value(&self.parcel_id)
        } else if column == 5 {
            number_value(&self.district_code)
        } else if column == 6 {
            text_value(&self.district_name)
        } else if column == 7 {
            text_value(&self.map)
        } else if column == 8 {
            text_value(&self.parcel_number)
        } else if column == 9 {
            text_value(&self.suffix)
        } else if column == 10 {
            text_value(&self.legal_description)
        } else if column == 11 {
            text_value(&self.legal_description_1)
        } else if column == 12 {
            text_value(&self.legal_description_2)
        } else if column == 13 {
            text_value(&self.full_legal_description)
        } else if column == 14 {
            number_value(&self.deeded_acre)
        } else if column == 15 {
            number_value(&self.calculated_acre)
        } else if column == 16 {
            number_value(&self.tax_year)
        } else if column == 17 {
            text_value(&self.tax_district)
        } else if column == 18 {
            text_value(&self.tax_class)
        } else if column == 19 {
            text_value(&self.deed_book)
        } else if column == 20 {
            text_value(&self.deed_page)
        } else if column == 21 {
            text_value(&self.property_class)
        } else if column == 22 {
            text_value(&self.property_type)
        } else if column == 23 {
            text_value(&self.owner_1)
        } else if column == 24 {
            text_value(&self.owner_2)
        } else if column == 25 {
            text_value(&self.full_owner_name)
        } else if column == 26 {
            text_value(&self.owner_address)
        } else if column == 27 {
            text_value(&self.owner_address_1)
        } else if column == 28 {
            text_value(&self.owner_address_2)
        } else if column == 29 {
            text_value(&self.owner_city)
        } else if column == 30 {
            text_value(&self.owner_state)
        } else if column == 31 {
            text_value(&self.owner_zip)
        } else if column == 32 {
            text_value(&self.care_of)
        } else if column == 33 {
            text_value(&self.full_owner_address)
        } else if column == 34 {
            text_value(&self.new_owner)
        } else if column == 35 {
            text_value(&self.new_owner_address)
        } else if column == 36 {
            text_value(&self.new_owner_address_1)
        } else if column == 37 {
            text_value(&self.new_owner_address_2)
        } else if column == 38 {
            text_value(&self.full_new_owner)
        } else if column == 39 {
            text_value(&self.new_deed_book)
        } else if column == 40 {
            text_value(&self.new_deed_page)
        } else if column == 41 {
            number_value(&self.physical_number)
        } else if column == 42 {
            text_value(&self.physical_direction)
        } else if column == 43 {
            text_value(&self.physical_street)
        } else if column == 44 {
            text_value(&self.physical_suffix)
        } else if column == 45 {
            text_value(&self.physical_unit_type)
        } else if column == 46 {
            text_value(&self.physical_city)
        } else if column == 47 {
            text_value(&self.physical_zip)
        } else if column == 48 {
            text_value(&self.physical_unit_id)
        } else if column == 49 {
            text_value(&self.full_physical_address)
        } else if column == 50 {
            text_value(&self.occupancy_description)
        } else if column == 51 {
            text_value(&self.hazard_occupancy)
        } else if column == 52 {
            text_value(&self.land_use)
        } else if column == 53 {
            text_value(&self.land_use_code)
        } else if column == 54 {
            number_value(&self.year_built)
        } else if column == 55 {
            text_value(&self.grade)
        } else if column == 56 {
            text_value(&self.style_code)
        } else if column == 57 {
            text_value(&self.style_description)
        } else if column == 58 {
            number_value(&self.commercial)
        } else if column == 59 {
            number_value(&self.stories)
        } else if column == 60 {
            text_value(&self.commercial_type_1)
        } else if column == 61 {
            text_value(&self.basement_type)
        } else if column == 62 {
            text_value(&self.exterior_wall)
        } else if column == 63 {
            text_value(&self.exterior_1)
        } else if column == 64 {
            text_value(&self.construction)
        } else if column == 65 {
            number_value(&self.total_rooms)
        } else if column == 66 {
            text_value(&self.use_type)
        } else if column == 67 {
            number_value(&self.business_license)
        } else if column == 68 {
            number_value(&self.structure_area)
        } else if column == 69 {
            number_value(&self.cubic_feet)
        } else if column == 70 {
            number_value(&self.units)
        } else if column == 71 {
            number_value(&self.commercial_type_2)
        } else if column == 72 {
            number_value(&self.card)
        } else if column == 73 {
            number_value(&self.cards)
        } else if column == 74 {
            number_value(&self.dwelling_value)
        } else if column == 75 {
            number_value(&self.commercial_type_3)
        } else if column == 76 {
            number_value(&self.other_building)
        } else if column == 77 {
            number_value(&self.land_appraised)
        } else if column == 78 {
            number_value(&self.building_appraised)
        } else if column == 79 {
            number_value(&self.total_appraised)
        } else if column == 80 {
            text_value(&self.sams_address)
        } else if column == 81 {
            text_value(&self.sams_city)
        } else if column == 82 {
            text_value(&self.sams_state)
        } else if column == 83 {
            text_value(&self.sams_zip)
        } else if column == 84 {
            text_value(&self.pre_address_number)
        } else if column == 85 {
            text_value(&self.address_number)
        } else if column == 86 {
            text_value(&self.address_number_suffix)
        } else if column == 87 {
            text_value(&self.full_name)
        } else if column == 88 {
            text_value(&self.unit_type)
        } else if column == 89 {
            text_value(&self.unit_id)
        } else if column == 90 {
            text_value(&self.alternate_unit_type)
        } else if column == 91 {
            text_value(&self.alternate_unit_id)
        } else if column == 92 {
            text_value(&self.flood_risks)
        } else if column == 93 {
            number_value(&self.oby_count)
        } else if column == 94 {
            number_value(&self.sale_price)
        } else if column == 95 {
            text_value(&self.developer_id)
        } else {
            number_value(&self.building_permits)
        }
    }

    /// The values of the record in the order of the destination table's
    /// columns: one per column, an absent attribute as an explicit null.
    pub fn row_values(&self) -> (row: Vec<Value>)
        ensures
            row.deep_view() == self@,
    {
        let mut row: Vec<Value> = Vec::with_capacity(COLUMN_COUNT);
        let mut column: usize = 0;
        while column < COLUMN_COUNT
            invariant
                column <= COLUMN_COUNT,
                row@.len() == column,
                forall|i: int| 0 <= i < column ==> (#[trigger] row@[i])@ == self.cell(i),
            decreases COLUMN_COUNT - column,
        {
            row.push(self.value_at(column));
            column = column + 1;
        }
        assert(row.deep_view() =~= self@);
        row
    }
}

/// The rows of a batch: one row for each record, in the order of the records.
/// They can be made ready before the store is entered.
pub fn batch_rows(batch: &Vec<ParcelRecord>) -> (rows: Vec<Vec<Value>>)
    ensures
        rows@.len() == batch@.len(),
        forall|i: int| 0 <= i < batch@.len() ==> (#[trigger] rows@[i]).deep_view() == batch@[i]@,
{
    let mut rows: Vec<Vec<Value>> = Vec::with_capacity(batch.len());
    let mut index: usize = 0;
    while index < batch.len()
        invariant
            index <= batch@.len(),
            rows@.len() == index,
            forall|i: int| 0 <= i < index ==> (#[trigger] rows@[i]).deep_view() == batch@[i]@,
        decreases batch@.len() - index,
    {
        rows.push(batch[index].row_values());
        index = index + 1;
    }
    rows
}

/// Every cell of a record fits the column of its position: what the mapper
/// can fill, the table can store.
pub proof fn lemma_record_fits_schema(record: ParcelRecord, column: int)
    requires
        0 <= column < COLUMN_COUNT,
    ensures
        fits(record@[column], column_type(column)),
{
}

} // verus!
