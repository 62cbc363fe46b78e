//! The invoices the shop bills its customers with, as far as other tables refer to them.

use vstd::prelude::*;

use crate::random::random_index;

verus! {

/// The records of the `invoices` table.
pub struct InvoicesTable {
    records: Vec<InvoicesTableRecord>,
}

/// A invoice, by the identifier that other tables use to refer to it.
#[derive(Clone, Copy)]
pub struct InvoicesTableRecord {
    pub id: i32,
}

impl InvoicesTableRecord {
    /// The identifier of the invoice.
    pub fn id(&self) -> (id: i32)
        ensures
            id == self.id,
    {
        self.id
    }
}

impl View for InvoicesTable {
    type V = Seq<InvoicesTableRecord>;

    closed spec fn view(&self) -> Seq<InvoicesTableRecord> {
        self.records@
    }
}

impl InvoicesTable {
    /// The table that holds `records`, in that order.
    pub fn with_records(records: Vec<InvoicesTableRecord>) -> (table: Self)
        ensures
            table@ == records@,
    {
        InvoicesTable { records }
    }

    /// The records of the table, in order.
    pub fn records(&self) -> (records: &[InvoicesTableRecord])
        ensures
            records@ == self@,
    {
        self.records.as_slice()
    }

    /// A record of the table, chosen at random.
    pub fn pick_random(&self) -> (record: &InvoicesTableRecord)
        requires
            self@.len() > 0,
        ensures
            self@.contains(*record),
    {
        let i = random_index(self.records.len());
        &self.records[i]
    }
}

} // verus!
