//! The `parts_view`: the parts in stock, with the names of their vendors.

use rust_decimal::Decimal;
use vstd::prelude::*;

verus! {

/// The records of the `parts_view`, whose primary key is `id`.
pub struct PartsView {
    records: Vec<PartsViewRecord>,
}

/// One part, with the name of its vendor.
#[derive(Clone)]
pub struct PartsViewRecord {
    pub id: i32,
    pub display_name: String,
    pub vendor: String,
    pub manufacturer: Option<String>,
    pub category: String,
    pub cost: Option<Decimal>,
    pub price: Option<Decimal>,
}

impl View for PartsView {
    type V = Seq<PartsViewRecord>;

    closed spec fn view(&self) -> Seq<PartsViewRecord> {
        self.records@
    }
}

impl PartsView {
    /// The view that holds `records`, in that order.
    pub fn with_records(records: Vec<PartsViewRecord>) -> (view: Self)
        ensures
            view@ == records@,
    {
        PartsView { records }
    }

    /// Gives the records up to the caller.
    pub fn take_records(self) -> (records: Vec<PartsViewRecord>)
        ensures
            records@ == self@,
    {
        self.records
    }

    /// The records of the view, in order.
    pub fn records(&self) -> (records: &[PartsViewRecord])
        ensures
            records@ == self@,
    {
        self.records.as_slice()
    }
}

} // verus!
