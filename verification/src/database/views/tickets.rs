//! The `tickets_view`: the tickets with their customers' names and open balances.

use chrono::NaiveDateTime;
use rust_decimal::Decimal;
use vstd::prelude::*;

use crate::shared_models::TicketStatus;

verus! {

/// The records of the `tickets_view`, whose primary key is `id`.
pub struct TicketsView {
    records: Vec<TicketsViewRecord>,
}

/// One ticket, with the name of its customer and the balance still owed on it.
#[derive(Clone)]
pub struct TicketsViewRecord {
    pub id: i32,
    pub status: TicketStatus,
    pub customer: Option<String>,
    pub balance: Decimal,
    pub created_at: NaiveDateTime,
    pub updated_at: NaiveDateTime,
}

impl View for TicketsView {
    type V = Seq<TicketsViewRecord>;

    closed spec fn view(&self) -> Seq<TicketsViewRecord> {
        self.records@
    }
}

impl TicketsView {
    /// The view that holds `records`, in that order.
    pub fn with_records(records: Vec<TicketsViewRecord>) -> (view: Self)
        ensures
            view@ == records@,
    {
        TicketsView { records }
    }

    /// Gives the records up to the caller.
    pub fn take_records(self) -> (records: Vec<TicketsViewRecord>)
        ensures
            records@ == self@,
    {
        self.records
    }

    /// The records of the view, in order.
    pub fn records(&self) -> (records: &[TicketsViewRecord])
        ensures
            records@ == self@,
    {
        self.records.as_slice()
    }
}

} // verus!
