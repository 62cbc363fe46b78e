//! The tickets as the API sends them: the records of the tickets view, each value paired
//! with its column's format, under the description of the columns.

use chrono::NaiveDateTime;
use rust_decimal::Decimal;
use vstd::prelude::*;

use super::{
    format_suits, is_tag_column, is_tag_option, is_text_column, tag_options_of, ColumnFormat, CssColor, FrontendColumnDisplay,
    FrontendColumnMetadata, FrontendDataType, TagOption, ViewCell,
};
use crate::database::views::tickets::{TicketsView, TicketsViewRecord};
use crate::shared_models::{ticket_status_index, ticket_status_name, ticket_statuses, TicketStatus};

verus! {

/// The tickets view as the API sends it.
pub struct TicketsApiView {
    pub metadata: TicketsApiViewMetadata,
    pub rows: Vec<TicketsApiViewRow>,
}

/// One ticket as the API sends it.
pub struct TicketsApiViewRow {
    pub id: ViewCell<u32>,
    pub status: ViewCell<TicketStatus>,
    pub customer: ViewCell<Option<String>>,
    pub balance: ViewCell<Decimal>,
    pub created_at: ViewCell<NaiveDateTime>,
    pub updated_at: ViewCell<NaiveDateTime>,
}

/// The format of each column of the tickets view.
#[derive(Clone, Copy)]
pub struct TicketsApiViewFormatting {
    pub id: ColumnFormat,
    pub status: ColumnFormat,
    pub customer: ColumnFormat,
    pub balance: ColumnFormat,
    pub created_at: ColumnFormat,
    pub updated_at: ColumnFormat,
}

/// The description of each column of the tickets view.
pub struct TicketsApiViewMetadata {
    pub id: FrontendColumnMetadata,
    pub status: FrontendColumnMetadata,
    pub customer: FrontendColumnMetadata,
    pub balance: FrontendColumnMetadata,
    pub created_at: FrontendColumnMetadata,
    pub updated_at: FrontendColumnMetadata,
}

/// The formats of the tickets columns: the identifier as an identifier, the status as a
/// tag, the customer as it is, the balance as money, and both times as dates.
pub open spec fn tickets_formatting() -> TicketsApiViewFormatting {
    TicketsApiViewFormatting {
        id: ColumnFormat::Id,
        status: ColumnFormat::Tag,
        customer: ColumnFormat::Plain,
        balance: ColumnFormat::Currency,
        created_at: ColumnFormat::Date,
        updated_at: ColumnFormat::Date,
    }
}

/// The options of the status column, in the order of [`crate::shared_models::ticket_statuses`]:
/// each status's name, the CSS colour of its badge and the badge's opacity in percent.
pub open spec fn status_tag_options() -> Seq<(Seq<char>, Seq<char>, u32)> {
    seq![
        ("new"@, "royalblue"@, 45u32),
        ("waiting_for_parts"@, "red"@, 37u32),
        ("waiting_for_customer"@, "yellow"@, 43u32),
        ("in_repair"@, "orange"@, 54u32),
        ("ready_for_pickup"@, "limegreen"@, 37u32),
        ("closed"@, "gray"@, 45u32),
    ]
}

impl TicketsApiViewFormatting {
    /// The formats of the tickets columns.
    pub fn new() -> (formatting: Self)
        ensures
            formatting == tickets_formatting(),
    {
        TicketsApiViewFormatting {
            id: ColumnFormat::Id,
            status: ColumnFormat::Tag,
            customer: ColumnFormat::Plain,
            balance: ColumnFormat::Currency,
            created_at: ColumnFormat::Date,
            updated_at: ColumnFormat::Date,
        }
    }
}

impl TicketsApiViewMetadata {
    /// The columns are, in order: `ID`, an integer shown whole; `Status`, a tag with the
    /// options of [`status_tag_options`]; `Customer`, a string that may be trimmed;
    /// `Balance`, a decimal; `Created` and `Updated`, timestamps.
    pub open spec fn describes_tickets(self) -> bool {
        &&& is_text_column(self.id, FrontendDataType::Integer, "ID"@, false)
        &&& is_tag_column(self.status, FrontendDataType::Tag, "Status"@, status_tag_options())
        &&& is_text_column(self.customer, FrontendDataType::String, "Customer"@, true)
        &&& is_text_column(self.balance, FrontendDataType::Decimal, "Balance"@, false)
        &&& is_text_column(self.created_at, FrontendDataType::Timestamp, "Created"@, false)
        &&& is_text_column(self.updated_at, FrontendDataType::Timestamp, "Updated"@, false)
    }

    /// The description of the tickets columns.
    pub fn new() -> (metadata: Self)
        ensures
            metadata.describes_tickets(),
    {
        let mut options: Vec<TagOption> = Vec::new();
        options.push(
            TagOption { name: "new", color: CssColor::Preset { name: "royalblue", opacity_percent: 45 } },
        );
        options.push(
            TagOption {
                name: "waiting_for_parts",
                color: CssColor::Preset { name: "red", opacity_percent: 37 },
            },
        );
        options.push(
            TagOption {
                name: "waiting_for_customer",
                color: CssColor::Preset { name: "yellow", opacity_percent: 43 },
            },
        );
        options.push(
            TagOption {
                name: "in_repair",
                color: CssColor::Preset { name: "orange", opacity_percent: 54 },
            },
        );
        options.push(
            TagOption {
                name: "ready_for_pickup",
                color: CssColor::Preset { name: "limegreen", opacity_percent: 37 },
            },
        );
        options.push(
            TagOption { name: "closed", color: CssColor::Preset { name: "gray", opacity_percent: 45 } },
        );
        let metadata = TicketsApiViewMetadata {
            id: FrontendColumnMetadata {
                data_type: FrontendDataType::Integer,
                display: FrontendColumnDisplay::Text { name: "ID", trimmable: false },
            },
            status: FrontendColumnMetadata {
                data_type: FrontendDataType::Tag,
                display: FrontendColumnDisplay::Tag { name: "Status", options },
            },
            customer: FrontendColumnMetadata {
                data_type: FrontendDataType::String,
                display: FrontendColumnDisplay::Text { name: "Customer", trimmable: true },
            },
            balance: FrontendColumnMetadata {
                data_type: FrontendDataType::Decimal,
                display: FrontendColumnDisplay::Text { name: "Balance", trimmable: false },
            },
            created_at: FrontendColumnMetadata {
                data_type: FrontendDataType::Timestamp,
                display: FrontendColumnDisplay::Text { name: "Created", trimmable: false },
            },
            updated_at: FrontendColumnMetadata {
                data_type: FrontendDataType::Timestamp,
                display: FrontendColumnDisplay::Text { name: "Updated", trimmable: false },
            },
        };
        metadata
    }
}

impl TicketsApiViewRow {
    /// The row shows `record`: each value of the record, the identifier taken as a `u32`,
    /// in the format that [`tickets_formatting`] gives its column.
    pub open spec fn shows(self, record: TicketsViewRecord) -> bool {
        &&& self.id.value == record.id as u32
        &&& self.id.format == tickets_formatting().id
        &&& self.status.value == record.status
        &&& self.status.format == tickets_formatting().status
        &&& self.customer.value == record.customer
        &&& self.customer.format == tickets_formatting().customer
        &&& self.balance.value == record.balance
        &&& self.balance.format == tickets_formatting().balance
        &&& self.created_at.value == record.created_at
        &&& self.created_at.format == tickets_formatting().created_at
        &&& self.updated_at.value == record.updated_at
        &&& self.updated_at.format == tickets_formatting().updated_at
    }
}

impl TicketsApiView {
    /// The tickets of `entity` as the API sends them: one row for each record, in order,
    /// under the description of the tickets columns.
    pub fn from_database_entity(entity: TicketsView) -> (view: Self)
        ensures
            view.metadata.describes_tickets(),
            view.rows@.len() == entity@.len(),
            forall|i: int| 0 <= i < entity@.len() ==> (#[trigger] view.rows@[i]).shows(entity@[i]),
    {
        let formatting = TicketsApiViewFormatting::new();
        let records = entity.take_records();
        let ghost all = records@;
        let mut rows: Vec<TicketsApiViewRow> = Vec::new();
        for record in it: records.into_iter()
            invariant
                formatting == tickets_formatting(),
                it.seq() == all,
                rows@.len() == it.index(),
                forall|j: int| 0 <= j < rows@.len() ==> (#[trigger] rows@[j]).shows(all[j]),
        {
            let TicketsViewRecord { id, status, customer, balance, created_at, updated_at } =
                record;
            rows.push(
                TicketsApiViewRow {
                    id: ViewCell::new(id as u32, &formatting.id),
                    status: ViewCell::new(status, &formatting.status),
                    customer: ViewCell::new(customer, &formatting.customer),
                    balance: ViewCell::new(balance, &formatting.balance),
                    created_at: ViewCell::new(created_at, &formatting.created_at),
                    updated_at: ViewCell::new(updated_at, &formatting.updated_at),
                },
            );
        }
        TicketsApiView { metadata: TicketsApiViewMetadata::new(), rows }
    }
}

/// The options of the status column name the ticket statuses, in order: option `i` is
/// named as the `i`-th status of [`ticket_statuses`] is stored, so every status that a
/// ticket can have is one of the column's tags, at its place in that order.
pub proof fn lemma_status_options_name_every_status(metadata: TicketsApiViewMetadata)
    requires
        metadata.describes_tickets(),
    ensures
        tag_options_of(metadata.status).len() == ticket_statuses().len(),
        forall|i: int|
            0 <= i < ticket_statuses().len() ==> (#[trigger] tag_options_of(metadata.status)[i]).name@
                == ticket_status_name(ticket_statuses()[i]),
        forall|status: TicketStatus|
            0 <= #[trigger] ticket_status_index(status) < ticket_statuses().len()
                && tag_options_of(metadata.status)[ticket_status_index(status)].name@
                == ticket_status_name(status),
{
    let options = tag_options_of(metadata.status);
    assert forall|i: int| 0 <= i < ticket_statuses().len() implies (#[trigger] options[i]).name@
        == ticket_status_name(ticket_statuses()[i]) by {
        assert(is_tag_option(
            options[i],
            status_tag_options()[i].0,
            status_tag_options()[i].1,
            status_tag_options()[i].2,
        ));
    }
    assert forall|status: TicketStatus|
        0 <= #[trigger] ticket_status_index(status) < ticket_statuses().len()
            && tag_options_of(metadata.status)[ticket_status_index(status)].name@
            == ticket_status_name(status) by {
        let i = ticket_status_index(status);
        assert(ticket_statuses()[i] == status);
        assert(options[i].name@ == ticket_status_name(ticket_statuses()[i]));
    }
}

/// The format that the tickets formatting gives each column suits the kind of values that
/// the tickets metadata declares for it.
pub proof fn lemma_formats_suit_data_types(metadata: TicketsApiViewMetadata)
    requires
        metadata.describes_tickets(),
    ensures
        format_suits(tickets_formatting().id, metadata.id.data_type),
        format_suits(tickets_formatting().status, metadata.status.data_type),
        format_suits(tickets_formatting().customer, metadata.customer.data_type),
        format_suits(tickets_formatting().balance, metadata.balance.data_type),
        format_suits(tickets_formatting().created_at, metadata.created_at.data_type),
        format_suits(tickets_formatting().updated_at, metadata.updated_at.data_type),
{
}

/// A row that shows a record with a non-negative identifier carries that identifier
/// unchanged.
pub proof fn lemma_row_keeps_nonnegative_id(row: TicketsApiViewRow, record: TicketsViewRecord)
    requires
        row.shows(record),
        record.id >= 0,
    ensures
        row.id.value as int == record.id as int,
{
}

} // verus!
