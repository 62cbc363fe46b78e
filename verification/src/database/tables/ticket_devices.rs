//! The junction table that records which devices were brought in with which ticket.

use vstd::prelude::*;

use crate::random::random_index;

verus! {

/// The rows of the `ticket_devices` junction table.
pub struct TicketDevicesDatabaseJunctionTable {
    rows: Vec<TicketDevicesDatabaseJunctionTableRow>,
}

/// One device brought in with one ticket.
#[derive(Clone, Copy)]
pub struct TicketDevicesDatabaseJunctionTableRow {
    pub ticket: i32,
    pub device: i32,
}

impl View for TicketDevicesDatabaseJunctionTable {
    type V = Seq<TicketDevicesDatabaseJunctionTableRow>;

    closed spec fn view(&self) -> Seq<TicketDevicesDatabaseJunctionTableRow> {
        self.rows@
    }
}

impl TicketDevicesDatabaseJunctionTable {
    /// The table that holds `rows`, in that order.
    pub fn with_rows(rows: Vec<TicketDevicesDatabaseJunctionTableRow>) -> (table: Self)
        ensures
            table@ == rows@,
    {
        TicketDevicesDatabaseJunctionTable { rows }
    }

    /// The rows of the table, in order.
    pub fn rows(&self) -> (rows: &[TicketDevicesDatabaseJunctionTableRow])
        ensures
            rows@ == self@,
    {
        self.rows.as_slice()
    }

    /// Gives the rows up to the caller.
    pub fn take_rows(self) -> (rows: Vec<TicketDevicesDatabaseJunctionTableRow>)
        ensures
            rows@ == self@,
    {
        self.rows
    }

    /// A row of the table, chosen at random.
    pub fn pick_random(&self) -> (row: &TicketDevicesDatabaseJunctionTableRow)
        requires
            self@.len() > 0,
        ensures
            self@.contains(*row),
    {
        let i = random_index(self.rows.len());
        &self.rows[i]
    }
}

} // verus!
