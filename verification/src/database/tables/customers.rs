//! The customers the shop repairs devices for, as far as other tables refer to them.

use vstd::prelude::*;

use crate::random::random_index;

verus! {

/// The records of the `customers` table.
pub struct CustomersTable {
    records: Vec<CustomersTableRecord>,
}

/// A customer, by the identifier that other tables use to refer to it.
#[derive(Clone, Copy)]
pub struct CustomersTableRecord {
    pub id: i32,
}

impl CustomersTableRecord {
    /// The identifier of the customer.
    pub fn id(&self) -> (id: i32)
        ensures
            id == self.id,
    {
        self.id
    }
}

impl View for CustomersTable {
    type V = Seq<CustomersTableRecord>;

    closed spec fn view(&self) -> Seq<CustomersTableRecord> {
        self.records@
    }
}

impl CustomersTable {
    /// The table that holds `records`, in that order.
    pub fn with_records(records: Vec<CustomersTableRecord>) -> (table: Self)
        ensures
            table@ == records@,
    {
        CustomersTable { records }
    }

    /// The records of the table, in order.
    pub fn records(&self) -> (records: &[CustomersTableRecord])
        ensures
            records@ == self@,
    {
        self.records.as_slice()
    }

    /// A record of the table, chosen at random.
    pub fn pick_random(&self) -> (record: &CustomersTableRecord)
        requires
            self@.len() > 0,
        ensures
            self@.contains(*record),
    {
        let i = random_index(self.records.len());
        &self.records[i]
    }
}

} // verus!
