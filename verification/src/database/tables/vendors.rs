//! The vendors from whom the shop orders parts.

use std::collections::HashSet;
use vstd::prelude::*;

use crate::generators::{
    generate_company_name, generate_email_address, generate_phone_number, generate_street_address,
    generate_unique_i32, has_free_value, is_company_name, is_email_address, is_phone_number,
    is_street_address, lemma_free_value_exists, option_for_roll, option_from_roll,
};
use crate::random::roll_percent;

verus! {

/// The rows of the `vendors` table, whose primary key is `id`.
pub struct VendorsDatabaseTable {
    rows: Vec<VendorsDatabaseTableRow>,
}

/// One vendor.
#[derive(Clone)]
pub struct VendorsDatabaseTableRow {
    pub id: i32,
    pub display_name: String,
    pub email_address: Option<String>,
    pub phone_number: Option<String>,
    pub street_address: Option<String>,
}

/// The chance, in a hundred, that a generated vendor has an e-mail address.
pub const EMAIL_ADDRESS_PERCENT: u32 = 70;

/// The chance, in a hundred, that a generated vendor has a telephone number.
pub const PHONE_NUMBER_PERCENT: u32 = 50;

/// The chance, in a hundred, that a generated vendor has a street address.
pub const STREET_ADDRESS_PERCENT: u32 = 20;

impl View for VendorsDatabaseTable {
    type V = Seq<VendorsDatabaseTableRow>;

    closed spec fn view(&self) -> Seq<VendorsDatabaseTableRow> {
        self.rows@
    }
}

impl VendorsDatabaseTable {
    /// The name of the table in the database.
    pub const ENTITY_NAME: &'static str = "vendors";

    /// The column that holds the primary key.
    pub const PRIMARY_COLUMN_NAME: &'static str = "id";

    /// The table that holds `rows`, in that order.
    pub fn with_rows(rows: Vec<VendorsDatabaseTableRow>) -> (table: Self)
        ensures
            table@ == rows@,
    {
        VendorsDatabaseTable { rows }
    }

    /// Gives the rows up to the caller.
    pub fn take_rows(self) -> (rows: Vec<VendorsDatabaseTableRow>)
        ensures
            rows@ == self@,
    {
        self.rows
    }

    /// The rows of the table, in order.
    pub fn rows(&self) -> (rows: &[VendorsDatabaseTableRow])
        ensures
            rows@ == self@,
    {
        self.rows.as_slice()
    }

    /// The columns of the table, in the order in which a row's values are bound.
    pub fn column_names() -> (names: Vec<&'static str>)
        ensures
            names@.len() == 5,
            names@[0]@ == "id"@,
            names@[1]@ == "display_name"@,
            names@[2]@ == "email_address"@,
            names@[3]@ == "phone_number"@,
            names@[4]@ == "street_address"@,
    {
        vec!["id", "display_name", "email_address", "phone_number", "street_address"]
    }

    /// A table of `count` generated vendors, no two of them with the same identifier.
    pub fn generate(count: usize) -> (table: Self)
        requires
            count <= 0x8000_0000,
        ensures
            table@.len() == count,
            rows_are_generated(table@),
    {
        let mut generation = VendorsGeneration::new();
        let mut k: usize = 0;
        while k < count
            invariant
                count <= 0x8000_0000,
                0 <= k <= count,
                generation@.len() == k,
                rows_are_generated(generation@),
            decreases count - k,
        {
            generation.push_row();
            k = k + 1;
        }
        generation.finish()
    }
}

/// Every row holds what the generator puts there, and no two rows share an identifier.
pub open spec fn rows_are_generated(rows: Seq<VendorsDatabaseTableRow>) -> bool {
    &&& forall|i: int| 0 <= i < rows.len() ==> (#[trigger] rows[i]).has_generated_contents()
    &&& forall|i: int, j: int|
        0 <= i < j < rows.len() ==> (#[trigger] rows[i]).id != (#[trigger] rows[j]).id
}

/// A vendors table being generated one row at a time, so that the caller can do its own
/// work between rows: the rows so far, and the set of their identifiers.
pub struct VendorsGeneration {
    rows: Vec<VendorsDatabaseTableRow>,
    existing_ids: HashSet<i32>,
}

impl View for VendorsGeneration {
    type V = Seq<VendorsDatabaseTableRow>;

    closed spec fn view(&self) -> Seq<VendorsDatabaseTableRow> {
        self.rows@
    }
}

impl VendorsGeneration {
    /// The rows are generated ones with distinct identifiers, and the set holds exactly
    /// their identifiers.
    #[verifier::type_invariant]
    closed spec fn well_formed(self) -> bool {
        &&& rows_are_generated(self.rows@)
        &&& self.existing_ids@.finite()
        &&& self.existing_ids@.len() == self.rows@.len()
        &&& forall|i: int|
            0 <= i < self.rows@.len() ==> self.existing_ids@.contains(#[trigger] self.rows@[i].id)
    }

    /// No row yet.
    pub fn new() -> (generation: Self)
        ensures
            generation@ == Seq::<VendorsDatabaseTableRow>::empty(),
    {
        VendorsGeneration { rows: Vec::new(), existing_ids: HashSet::new() }
    }

    /// The number of rows generated so far.
    pub fn len(&self) -> (n: usize)
        ensures
            n == self@.len(),
    {
        self.rows.len()
    }

    /// Generates one more vendor, whose identifier differs from those of the rows so far.
    pub fn push_row(&mut self)
        requires
            old(self)@.len() < 0x8000_0000,
        ensures
            final(self)@.len() == old(self)@.len() + 1,
            final(self)@.drop_last() == old(self)@,
            rows_are_generated(final(self)@),
    {
        broadcast use vstd::set::group_set_axioms;

        let mut current = VendorsGeneration::new();
        std::mem::swap(&mut current, self);
        proof {
            use_type_invariant(&current);
        }
        let VendorsGeneration { mut rows, mut existing_ids } = current;
        proof {
            lemma_free_value_exists(existing_ids@, 0);
        }
        let ghost before = rows@;
        let row = VendorsDatabaseTableRow::generate(&mut existing_ids);
        rows.push(row);
        assert(rows@.drop_last() =~= before);
        *self = VendorsGeneration { rows, existing_ids };
    }

    /// The table of the rows generated.
    pub fn finish(self) -> (table: VendorsDatabaseTable)
        ensures
            table@ == self@,
            rows_are_generated(table@),
    {
        proof {
            use_type_invariant(&self);
        }
        VendorsDatabaseTable::with_rows(self.rows)
    }
}

impl VendorsDatabaseTableRow {
    /// Every column holds what the generator puts there: a company name, and, where they
    /// are present, an e-mail address, a telephone number and a street address of the
    /// generated shapes.
    pub open spec fn has_generated_contents(self) -> bool {
        &&& self.id >= 0
        &&& is_company_name(self.display_name@)
        &&& (self.email_address matches Some(a) ==> is_email_address(a@))
        &&& (self.phone_number matches Some(p) ==> is_phone_number(p@))
        &&& (self.street_address matches Some(a) ==> is_street_address(a@))
    }

    /// The identifier of the vendor.
    pub fn id(&self) -> (id: i32)
        ensures
            id == self.id,
    {
        self.id
    }

    /// The vendor made of generated values and of the rolls, each in `0..100`, that decide
    /// its optional columns: each of them holds its value when its roll falls below its
    /// chance (`EMAIL_ADDRESS_PERCENT`, `PHONE_NUMBER_PERCENT`, `STREET_ADDRESS_PERCENT`),
    /// and is empty otherwise.
    pub fn from_rolls(
        id: i32,
        display_name: String,
        email_address: String,
        phone_number: String,
        street_address: String,
        rolls: (u32, u32, u32),
    ) -> (row: Self)
        ensures
            row.id == id,
            row.display_name == display_name,
            row.email_address == option_for_roll(email_address, rolls.0, EMAIL_ADDRESS_PERCENT),
            row.phone_number == option_for_roll(phone_number, rolls.1, PHONE_NUMBER_PERCENT),
            row.street_address == option_for_roll(street_address, rolls.2, STREET_ADDRESS_PERCENT),
    {
        VendorsDatabaseTableRow {
            id,
            display_name,
            email_address: option_from_roll(email_address, rolls.0, EMAIL_ADDRESS_PERCENT),
            phone_number: option_from_roll(phone_number, rolls.1, PHONE_NUMBER_PERCENT),
            street_address: option_from_roll(street_address, rolls.2, STREET_ADDRESS_PERCENT),
        }
    }

    /// The values of the row, in the order of [`VendorsDatabaseTable::column_names`].
    pub fn into_bindings(self) -> (values: (i32, String, Option<String>, Option<String>, Option<String>))
        ensures
            values == (self.id, self.display_name, self.email_address, self.phone_number, self.street_address),
    {
        (self.id, self.display_name, self.email_address, self.phone_number, self.street_address)
    }

    /// Generates a vendor whose identifier is not negative and not yet in `existing_ids`,
    /// and adds the identifier there. Each optional column is filled with the chance that
    /// [`VendorsDatabaseTableRow::from_rolls`] gives it, from a roll of its own.
    pub fn generate(existing_ids: &mut HashSet<i32>) -> (row: Self)
        requires
            has_free_value(old(existing_ids)@, 0),
        ensures
            row.has_generated_contents(),
            !old(existing_ids)@.contains(row.id),
            final(existing_ids)@ == old(existing_ids)@.insert(row.id),
    {
        let id = generate_unique_i32(0, existing_ids);
        let display_name = generate_company_name();
        let email_address = generate_email_address();
        let phone_number = generate_phone_number();
        let street_address = generate_street_address();
        let rolls = (roll_percent(), roll_percent(), roll_percent());
        Self::from_rolls(id, display_name, email_address, phone_number, street_address, rolls)
    }
}

} // verus!
