//! The junction table that records which parts were bundled with which device of a ticket.

use std::collections::HashSet;

use vstd::prelude::*;

use super::parts::{PartsDatabaseTable, PartsDatabaseTableRow};
use super::ticket_devices::{TicketDevicesDatabaseJunctionTable, TicketDevicesDatabaseJunctionTableRow};
use crate::random::random_index;

verus! {

/// The rows of the `bundled_parts` junction table, whose primary key is
/// `(ticket, device, part)`.
pub struct BundledPartsDatabaseJunctionTable {
    rows: Vec<BundledPartsDatabaseJunctionTableRow>,
}

/// One part bundled with one device of one ticket.
#[derive(Clone, Copy)]
pub struct BundledPartsDatabaseJunctionTableRow {
    pub ticket: i32,
    pub device: i32,
    pub part: i32,
}

impl View for BundledPartsDatabaseJunctionTable {
    type V = Seq<BundledPartsDatabaseJunctionTableRow>;

    closed spec fn view(&self) -> Seq<BundledPartsDatabaseJunctionTableRow> {
        self.rows@
    }
}

impl BundledPartsDatabaseJunctionTable {
    /// The table that holds `rows`, in that order.
    pub fn with_rows(rows: Vec<BundledPartsDatabaseJunctionTableRow>) -> (table: Self)
        ensures
            table@ == rows@,
    {
        BundledPartsDatabaseJunctionTable { rows }
    }

    /// The rows of the table, in order.
    pub fn rows(&self) -> (rows: &[BundledPartsDatabaseJunctionTableRow])
        ensures
            rows@ == self@,
    {
        self.rows.as_slice()
    }

    /// Gives the rows up to the caller.
    pub fn take_rows(self) -> (rows: Vec<BundledPartsDatabaseJunctionTableRow>)
        ensures
            rows@ == self@,
    {
        self.rows
    }
}

/// The primary key `(ticket, device, part)` of a bundled part.
pub open spec fn bundle_key(
    ticket_device: TicketDevicesDatabaseJunctionTableRow,
    part: PartsDatabaseTableRow,
) -> (i32, i32, i32) {
    (ticket_device.ticket, ticket_device.device, part.id)
}

/// A key, written as one integer: each identifier shifted into `0..2^32` and placed in its
/// own 32 bits, the ticket highest.
pub open spec fn packed_key(key: (i32, i32, i32)) -> u128 {
    ((key.0 + 0x8000_0000) * 0x1_0000_0000_0000_0000 + (key.1 + 0x8000_0000) * 0x1_0000_0000 + (
    key.2 + 0x8000_0000)) as u128
}

/// Two keys that are written as the same integer are the same key.
pub proof fn lemma_packed_key_injective(a: (i32, i32, i32), b: (i32, i32, i32))
    ensures
        packed_key(a) == packed_key(b) <==> a == b,
{
    let (a0, a1, a2) = (a.0 + 0x8000_0000, a.1 + 0x8000_0000, a.2 + 0x8000_0000);
    let (b0, b1, b2) = (b.0 + 0x8000_0000, b.1 + 0x8000_0000, b.2 + 0x8000_0000);
    assert(a0 * 0x1_0000_0000_0000_0000 + a1 * 0x1_0000_0000 + a2 == b0 * 0x1_0000_0000_0000_0000
        + b1 * 0x1_0000_0000 + b2 ==> a0 == b0 && a1 == b1 && a2 == b2) by (nonlinear_arith)
        requires
            0 <= a0 < 0x1_0000_0000,
            0 <= a1 < 0x1_0000_0000,
            0 <= a2 < 0x1_0000_0000,
            0 <= b0 < 0x1_0000_0000,
            0 <= b1 < 0x1_0000_0000,
            0 <= b2 < 0x1_0000_0000,
    ;
}

/// The keys of the bundled parts generated so far, each held once.
pub struct BundleKeys {
    packed: HashSet<u128>,
}

impl View for BundleKeys {
    type V = Set<(i32, i32, i32)>;

    closed spec fn view(&self) -> Set<(i32, i32, i32)> {
        Set::new(|key: (i32, i32, i32)| self.packed@.contains(packed_key(key)))
    }
}

/// `key` written as one integer, as [`packed_key`] says.
fn pack(key: (i32, i32, i32)) -> (packed: u128)
    ensures
        packed == packed_key(key),
{
    let ticket = (key.0 as i64 + 0x8000_0000) as u128;
    let device = (key.1 as i64 + 0x8000_0000) as u128;
    let part = (key.2 as i64 + 0x8000_0000) as u128;
    ticket * 0x1_0000_0000_0000_0000 + device * 0x1_0000_0000 + part
}

impl BundleKeys {
    /// No key yet.
    pub fn new() -> (keys: Self)
        ensures
            keys@ == Set::<(i32, i32, i32)>::empty(),
    {
        let keys = BundleKeys { packed: HashSet::new() };
        assert(keys@ =~= Set::<(i32, i32, i32)>::empty());
        keys
    }

    /// Whether `key` is held.
    pub fn contains(&self, key: (i32, i32, i32)) -> (found: bool)
        ensures
            found == self@.contains(key),
    {
        broadcast use vstd::std_specs::hash::group_hash_axioms;

        self.packed.contains(&pack(key))
    }

    /// Adds `key`; whether it was new.
    pub fn insert(&mut self, key: (i32, i32, i32)) -> (added: bool)
        ensures
            final(self)@ == old(self)@.insert(key),
            added == !old(self)@.contains(key),
    {
        broadcast use vstd::std_specs::hash::group_hash_axioms;

        let packed = pack(key);
        let added = self.packed.insert(packed);
        assert(self@ =~= old(self)@.insert(key)) by {
            assert forall|k: (i32, i32, i32)| #[trigger] self@.contains(k) == old(self)@.insert(
                key,
            ).contains(k) by {
                lemma_packed_key_injective(k, key);
            }
        }
        added
    }
}

/// Some pair of a ticket's device and a part has a key that `taken` does not hold.
pub open spec fn has_free_bundle(
    ticket_devices: Seq<TicketDevicesDatabaseJunctionTableRow>,
    parts: Seq<PartsDatabaseTableRow>,
    taken: Set<(i32, i32, i32)>,
) -> bool {
    exists|i: int, j: int|
        0 <= i < ticket_devices.len() && 0 <= j < parts.len() && !taken.contains(
            #[trigger] bundle_key(ticket_devices[i], parts[j]),
        )
}

/// The pair of positions `(i, j)` names a ticket's device and a part whose key `taken` does
/// not hold.
pub open spec fn is_free_pair(
    ticket_devices: Seq<TicketDevicesDatabaseJunctionTableRow>,
    parts: Seq<PartsDatabaseTableRow>,
    taken: Set<(i32, i32, i32)>,
    pair: (usize, usize),
) -> bool {
    &&& pair.0 < ticket_devices.len()
    &&& pair.1 < parts.len()
    &&& !taken.contains(bundle_key(ticket_devices[pair.0 as int], parts[pair.1 as int]))
}

/// The pair `(i, j)` comes before `(row, column)`, device by device and part by part.
pub open spec fn comes_before(pair: (usize, usize), row: usize, column: usize) -> bool {
    pair.0 < row || (pair.0 == row && pair.1 < column)
}

/// Every pair of positions of a ticket's device and a part whose key `taken` does not hold,
/// each once.
fn free_pairs(
    ticket_devices: &[TicketDevicesDatabaseJunctionTableRow],
    parts: &[PartsDatabaseTableRow],
    taken: &BundleKeys,
) -> (pairs: Vec<(usize, usize)>)
    ensures
        forall|k: int|
            0 <= k < pairs@.len() ==> is_free_pair(
                ticket_devices@,
                parts@,
                taken@,
                #[trigger] pairs@[k],
            ),
        forall|pair: (usize, usize)|
            is_free_pair(ticket_devices@, parts@, taken@, pair) ==> #[trigger] pairs@.contains(
                pair,
            ),
        forall|k: int, l: int| 0 <= k < l < pairs@.len() ==> pairs@[k] != pairs@[l],
{
    let n = ticket_devices.len();
    let m = parts.len();
    let mut pairs: Vec<(usize, usize)> = Vec::new();
    let mut i: usize = 0;
    while i < n
        invariant
            n == ticket_devices@.len(),
            m == parts@.len(),
            0 <= i <= n,
            forall|k: int|
                0 <= k < pairs@.len() ==> is_free_pair(
                    ticket_devices@,
                    parts@,
                    taken@,
                    #[trigger] pairs@[k],
                ) && comes_before(pairs@[k], i, 0),
            forall|pair: (usize, usize)|
                comes_before(pair, i, 0) && is_free_pair(ticket_devices@, parts@, taken@, pair)
                    ==> #[trigger] pairs@.contains(pair),
            forall|k: int, l: int| 0 <= k < l < pairs@.len() ==> pairs@[k] != pairs@[l],
        decreases n - i,
    {
        let ticket_device = &ticket_devices[i];
        let mut j: usize = 0;
        while j < m
            invariant
                n == ticket_devices@.len(),
                m == parts@.len(),
                0 <= i < n,
                0 <= j <= m,
                *ticket_device == ticket_devices@[i as int],
                forall|k: int|
                    0 <= k < pairs@.len() ==> is_free_pair(
                        ticket_devices@,
                        parts@,
                        taken@,
                        #[trigger] pairs@[k],
                    ) && comes_before(pairs@[k], i, j),
                forall|pair: (usize, usize)|
                    comes_before(pair, i, j) && is_free_pair(ticket_devices@, parts@, taken@, pair)
                        ==> #[trigger] pairs@.contains(pair),
                forall|k: int, l: int| 0 <= k < l < pairs@.len() ==> pairs@[k] != pairs@[l],
            decreases m - j,
        {
            let key = (ticket_device.ticket, ticket_device.device, parts[j].id);
            if !taken.contains(key) {
                let ghost before = pairs@;
                pairs.push((i, j));
                assert forall|pair: (usize, usize)|
                    comes_before(pair, i, (j + 1) as usize) && is_free_pair(
                        ticket_devices@,
                        parts@,
                        taken@,
                        pair,
                    ) implies #[trigger] pairs@.contains(pair) by {
                    if pair == (i, j) {
                        assert(pairs@[before.len() as int] == pair);
                    } else {
                        assert(before.contains(pair));
                        let k = choose|k: int| 0 <= k < before.len() && before[k] == pair;
                        assert(pairs@[k] == pair);
                    }
                }
            }
            j = j + 1;
        }
        i = i + 1;
    }
    pairs
}

impl BundledPartsDatabaseJunctionTableRow {
    /// Generates a bundled part whose key is not yet in `existing_pairs`, and adds the key
    /// there.
    ///
    /// The ticket and device come from one row of the ticket-devices table, the part from
    /// the parts table. The pair is drawn at random among the pairs whose key is free, each
    /// as likely as the others, as redrawing until a free pair comes up would give; a free
    /// pair must exist, which `requires` asks for.
    pub fn generate(
        _existing_rows: &[Self],
        existing_pairs: &mut BundleKeys,
        dependencies: (&TicketDevicesDatabaseJunctionTable, &PartsDatabaseTable),
    ) -> (row: Self)
        requires
            has_free_bundle(dependencies.0@, dependencies.1@, old(existing_pairs)@),
        ensures
            exists|i: int, j: int|
                0 <= i < dependencies.0@.len() && 0 <= j < dependencies.1@.len()
                    && row.ticket == dependencies.0@[i].ticket
                    && row.device == dependencies.0@[i].device
                    && row.part == dependencies.1@[j].id,
            !old(existing_pairs)@.contains((row.ticket, row.device, row.part)),
            final(existing_pairs)@ == old(existing_pairs)@.insert((row.ticket, row.device, row.part)),
    {
        let ticket_devices = dependencies.0.rows();
        let parts = dependencies.1.rows();
        let n = ticket_devices.len();
        let m = parts.len();
        let pairs = free_pairs(ticket_devices, parts, existing_pairs);
        proof {
            let (wi, wj) = choose|wi: int, wj: int|
                0 <= wi < n && 0 <= wj < m && !existing_pairs@.contains(
                    #[trigger] bundle_key(ticket_devices@[wi], parts@[wj]),
                );
            assert(is_free_pair(ticket_devices@, parts@, existing_pairs@, (wi as usize, wj as usize)));
            assert(pairs@.contains((wi as usize, wj as usize)));
        }
        let (i, j) = pairs[random_index(pairs.len())];
        let ticket_device = &ticket_devices[i];
        let part = &parts[j];
        let row = BundledPartsDatabaseJunctionTableRow {
            ticket: ticket_device.ticket,
            device: ticket_device.device,
            part: part.id,
        };
        existing_pairs.insert((row.ticket, row.device, row.part));
        row
    }
}

} // verus!
