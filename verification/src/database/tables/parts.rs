//! The parts that the shop stocks, as far as other tables refer to them.

use vstd::prelude::*;

use crate::random::random_index;

verus! {

/// The rows of the `parts` table.
pub struct PartsDatabaseTable {
    rows: Vec<PartsDatabaseTableRow>,
}

/// A part, by the identifier that other tables use to refer to it.
#[derive(Clone, Copy)]
pub struct PartsDatabaseTableRow {
    pub id: i32,
}

impl PartsDatabaseTableRow {
    /// The identifier of the part.
    pub fn id(&self) -> (id: i32)
        ensures
            id == self.id,
    {
        self.id
    }
}

impl View for PartsDatabaseTable {
    type V = Seq<PartsDatabaseTableRow>;

    closed spec fn view(&self) -> Seq<PartsDatabaseTableRow> {
        self.rows@
    }
}

impl PartsDatabaseTable {
    /// The table that holds `rows`, in that order.
    pub fn with_rows(rows: Vec<PartsDatabaseTableRow>) -> (table: Self)
        ensures
            table@ == rows@,
    {
        PartsDatabaseTable { rows }
    }

    /// The rows of the table, in order.
    pub fn rows(&self) -> (rows: &[PartsDatabaseTableRow])
        ensures
            rows@ == self@,
    {
        self.rows.as_slice()
    }

    /// Gives the rows up to the caller.
    pub fn take_rows(self) -> (rows: Vec<PartsDatabaseTableRow>)
        ensures
            rows@ == self@,
    {
        self.rows
    }

    /// A row of the table, chosen at random.
    pub fn pick_random(&self) -> (row: &PartsDatabaseTableRow)
        requires
            self@.len() > 0,
        ensures
            self@.contains(*row),
    {
        let i = random_index(self.rows.len());
        &self.rows[i]
    }
}

} // verus!
