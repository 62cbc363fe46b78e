//! Enumerations that several tables and views share.

use vstd::prelude::*;

verus! {

/// The stage that a repair ticket has reached.
#[derive(Clone, Copy, Debug, PartialEq, Eq, Structural)]
pub enum TicketStatus {
    New,
    WaitingForParts,
    WaitingForCustomer,
    InRepair,
    ReadyForPickup,
    Closed,
}

/// Every ticket status, in the order in which a repair goes through them.
pub open spec fn ticket_statuses() -> Seq<TicketStatus> {
    seq![
        TicketStatus::New,
        TicketStatus::WaitingForParts,
        TicketStatus::WaitingForCustomer,
        TicketStatus::InRepair,
        TicketStatus::ReadyForPickup,
        TicketStatus::Closed,
    ]
}

/// The place of `status` in [`ticket_statuses`].
pub open spec fn ticket_status_index(status: TicketStatus) -> int {
    match status {
        TicketStatus::New => 0,
        TicketStatus::WaitingForParts => 1,
        TicketStatus::WaitingForCustomer => 2,
        TicketStatus::InRepair => 3,
        TicketStatus::ReadyForPickup => 4,
        TicketStatus::Closed => 5,
    }
}

/// The name under which a ticket status is stored and sent: its variant in snake case.
pub open spec fn ticket_status_name(status: TicketStatus) -> Seq<char> {
    match status {
        TicketStatus::New => "new"@,
        TicketStatus::WaitingForParts => "waiting_for_parts"@,
        TicketStatus::WaitingForCustomer => "waiting_for_customer"@,
        TicketStatus::InRepair => "in_repair"@,
        TicketStatus::ReadyForPickup => "ready_for_pickup"@,
        TicketStatus::Closed => "closed"@,
    }
}

/// Different statuses are stored under different names, so a stored name gives back the
/// status.
pub proof fn lemma_ticket_status_names_distinct(a: TicketStatus, b: TicketStatus)
    requires
        a != b,
    ensures
        ticket_status_name(a) != ticket_status_name(b),
{
    reveal_strlit("new");
    reveal_strlit("waiting_for_parts");
    reveal_strlit("waiting_for_customer");
    reveal_strlit("in_repair");
    reveal_strlit("ready_for_pickup");
    reveal_strlit("closed");
    assert(ticket_status_name(a).len() != ticket_status_name(b).len());
}

impl TicketStatus {
    /// The name under which the status is stored and sent.
    pub fn as_str(&self) -> (name: &'static str)
        ensures
            name@ == ticket_status_name(*self),
    {
        match self {
            TicketStatus::New => "new",
            TicketStatus::WaitingForParts => "waiting_for_parts",
            TicketStatus::WaitingForCustomer => "waiting_for_customer",
            TicketStatus::InRepair => "in_repair",
            TicketStatus::ReadyForPickup => "ready_for_pickup",
            TicketStatus::Closed => "closed",
        }
    }

    /// The status at `index` in [`ticket_statuses`].
    pub fn from_index(index: usize) -> (status: TicketStatus)
        requires
            index < 6,
        ensures
            status == ticket_statuses()[index as int],
    {
        match index {
            0 => TicketStatus::New,
            1 => TicketStatus::WaitingForParts,
            2 => TicketStatus::WaitingForCustomer,
            3 => TicketStatus::InRepair,
            4 => TicketStatus::ReadyForPickup,
            _ => TicketStatus::Closed,
        }
    }
}

/// What an item of the shop's catalogue is.
#[derive(Clone, Copy, Debug, PartialEq, Eq, Structural)]
pub enum ItemType {
    Product,
    Service,
}

} // verus!
