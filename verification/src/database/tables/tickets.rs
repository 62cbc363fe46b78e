//! The repair tickets: one for each job that a customer brings in.

use chrono::NaiveDateTime;
use std::collections::HashSet;
use vstd::prelude::*;

use super::customers::CustomersTable;
use super::invoices::InvoicesTable;
use crate::generators::{
    FIRST_CREATED_AT, LAST_CREATED_AT, MAX_UPDATE_DELAY,
    datetime_at, datetime_of, diagnostics, generate_diagnostic, generate_ticket_status,
    generate_timestamp, generate_unique_i32, has_free_value, option_for_roll, option_from_roll,
};
use crate::random::roll_percent;
use crate::shared_models::TicketStatus;

verus! {

/// The records of the `tickets` table, whose primary key is `id`.
#[derive(Clone)]
pub struct TicketsTable {
    records: Vec<TicketsTableRecord>,
}

/// One repair ticket. The columns that the database can fill in by default (`status`,
/// `notes`, `created_at`, `updated_at`) are optional.
#[derive(Clone)]
pub struct TicketsTableRecord {
    pub id: i32,
    pub status: Option<TicketStatus>,
    pub customer: Option<i32>,
    pub invoice: Option<i32>,
    pub description: String,
    pub notes: Option<Vec<String>>,
    pub created_at: Option<NaiveDateTime>,
    pub updated_at: Option<NaiveDateTime>,
}

/// The chance, in a hundred, that a generated ticket names a customer.
pub const CUSTOMER_PERCENT: u32 = 95;

/// The chance, in a hundred, that a generated ticket names an invoice.
pub const INVOICE_PERCENT: u32 = 80;

impl View for TicketsTable {
    type V = Seq<TicketsTableRecord>;

    closed spec fn view(&self) -> Seq<TicketsTableRecord> {
        self.records@
    }
}

impl TicketsTable {
    /// The table that holds `records`, in that order.
    pub fn with_records(records: Vec<TicketsTableRecord>) -> (table: Self)
        ensures
            table@ == records@,
    {
        TicketsTable { records }
    }

    /// Gives the records up to the caller.
    pub fn take_records(self) -> (records: Vec<TicketsTableRecord>)
        ensures
            records@ == self@,
    {
        self.records
    }

    /// The records of the table, in order.
    pub fn records(&self) -> (records: &[TicketsTableRecord])
        ensures
            records@ == self@,
    {
        self.records.as_slice()
    }
}

impl TicketsTableRecord {
    /// The identifier of the ticket.
    pub fn id(&self) -> (id: i32)
        ensures
            id == self.id,
    {
        self.id
    }

    /// The ticket made of generated values and of the rolls, each in `0..100`, that decide
    /// whether it names the customer and the invoice drawn for it: it names the customer
    /// when `rolls.0` falls below `CUSTOMER_PERCENT`, and the invoice when `rolls.1` falls
    /// below `INVOICE_PERCENT`. It has the status, the creation and update times given, and
    /// no notes.
    pub fn from_rolls(
        id: i32,
        status: TicketStatus,
        description: String,
        created_at: NaiveDateTime,
        updated_at: NaiveDateTime,
        references: (i32, i32),
        rolls: (u32, u32),
    ) -> (record: Self)
        ensures
            record.id == id,
            record.status == Some(status),
            record.customer == option_for_roll(references.0, rolls.0, CUSTOMER_PERCENT),
            record.invoice == option_for_roll(references.1, rolls.1, INVOICE_PERCENT),
            record.description == description,
            record.notes is None,
            record.created_at == Some(created_at),
            record.updated_at == Some(updated_at),
    {
        TicketsTableRecord {
            id,
            status: Some(status),
            customer: option_from_roll(references.0, rolls.0, CUSTOMER_PERCENT),
            invoice: option_from_roll(references.1, rolls.1, INVOICE_PERCENT),
            description,
            notes: None,
            created_at: Some(created_at),
            updated_at: Some(updated_at),
        }
    }

    /// Generates a ticket whose identifier is not negative and not yet in `existing_ids`,
    /// and adds the identifier there. The ticket has a status, a diagnosis for its
    /// description, no notes, a creation time in `FIRST_CREATED_AT..=LAST_CREATED_AT` and an
    /// update time at most `MAX_UPDATE_DELAY` seconds after it; it names a customer of
    /// the customers table with a chance of `CUSTOMER_PERCENT` in a hundred, and an invoice
    /// of the invoices table with a chance of `INVOICE_PERCENT`, as
    /// [`TicketsTableRecord::from_rolls`] decides from a roll for each.
    pub fn generate(
        _existing_records: &[Self],
        existing_ids: &mut HashSet<i32>,
        dependencies: (&CustomersTable, &InvoicesTable),
    ) -> (record: Self)
        requires
            has_free_value(old(existing_ids)@, 0),
            dependencies.0@.len() > 0,
            dependencies.1@.len() > 0,
        ensures
            record.id >= 0,
            !old(existing_ids)@.contains(record.id),
            final(existing_ids)@ == old(existing_ids)@.insert(record.id),
            record.status is Some,
            record.customer matches Some(c) ==> exists|i: int|
                0 <= i < dependencies.0@.len() && (#[trigger] dependencies.0@[i]).id == c,
            record.invoice matches Some(v) ==> exists|i: int|
                0 <= i < dependencies.1@.len() && (#[trigger] dependencies.1@[i]).id == v,
            diagnostics().contains(record.description@),
            record.notes is None,
            exists|created: i64, updated: i64|
                #![trigger datetime_of(created), datetime_of(updated)]
                FIRST_CREATED_AT <= created <= LAST_CREATED_AT && created <= updated <= created
                    + MAX_UPDATE_DELAY && record.created_at == Some(datetime_of(created))
                    && record.updated_at == Some(datetime_of(updated)),
    {
        let created_secs = generate_timestamp(None);
        let updated_secs = generate_timestamp(Some(created_secs));
        let created_at = datetime_at(created_secs);
        let updated_at = datetime_at(updated_secs);

        let id = generate_unique_i32(0, existing_ids);
        let status = generate_ticket_status();
        let customer = dependencies.0.pick_random().id();
        let invoice = dependencies.1.pick_random().id();
        let description = generate_diagnostic();
        let rolls = (roll_percent(), roll_percent());
        Self::from_rolls(id, status, description, created_at, updated_at, (customer, invoice), rolls)
    }
}

} // verus!
