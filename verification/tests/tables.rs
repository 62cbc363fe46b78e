use std::collections::HashSet;

use repair_shop::database::tables::bundled_parts::{
    BundleKeys, BundledPartsDatabaseJunctionTable, BundledPartsDatabaseJunctionTableRow,
};
use repair_shop::database::tables::customers::{CustomersTable, CustomersTableRecord};
use repair_shop::database::tables::invoices::{InvoicesTable, InvoicesTableRecord};
use repair_shop::database::tables::parts::{PartsDatabaseTable, PartsDatabaseTableRow};
use repair_shop::database::tables::ticket_devices::{
    TicketDevicesDatabaseJunctionTable, TicketDevicesDatabaseJunctionTableRow,
};
use repair_shop::database::tables::tickets::{TicketsTable, TicketsTableRecord};
use repair_shop::database::tables::vendors::{
    VendorsDatabaseTable, VendorsDatabaseTableRow, VendorsGeneration, EMAIL_ADDRESS_PERCENT,
    PHONE_NUMBER_PERCENT, STREET_ADDRESS_PERCENT,
};
use repair_shop::database::tables::tickets::{CUSTOMER_PERCENT, INVOICE_PERCENT};
use repair_shop::shared_models::TicketStatus;

fn check_vendor_contents(row: &VendorsDatabaseTableRow) {
    assert!(row.id >= 0);
    assert_eq!(row.display_name.split(' ').count(), 2);
    if let Some(email) = &row.email_address {
        assert!(email.contains('@'));
    }
    if let Some(phone) = &row.phone_number {
        assert_eq!(phone.chars().count(), 14);
    }
    if let Some(address) = &row.street_address {
        assert_eq!(address.split(' ').count(), 3);
    }
}

#[test]
fn vendors_table_has_count_rows_with_distinct_ids() {
    let table = VendorsDatabaseTable::generate(300);
    let rows = table.rows();
    assert_eq!(rows.len(), 300);
    let ids: HashSet<i32> = rows.iter().map(|r| r.id).collect();
    assert_eq!(ids.len(), 300);
    for row in rows {
        check_vendor_contents(row);
        assert_eq!(row.id(), row.id);
    }
}

#[test]
fn vendors_table_of_no_rows() {
    let table = VendorsDatabaseTable::generate(0);
    assert!(table.rows().is_empty());
    assert_eq!(VendorsDatabaseTable::ENTITY_NAME, "vendors");
    assert_eq!(VendorsDatabaseTable::PRIMARY_COLUMN_NAME, "id");
}

#[test]
fn vendor_row_takes_a_fresh_id() {
    let mut existing: HashSet<i32> = [0, 1, 2, 3].into_iter().collect();
    let row = VendorsDatabaseTableRow::generate(&mut existing);
    assert!(row.id > 3);
    assert!(existing.contains(&row.id));
    assert_eq!(existing.len(), 5);
    check_vendor_contents(&row);
}

#[test]
fn vendors_table_keeps_and_gives_back_its_rows() {
    let rows = VendorsDatabaseTable::generate(4).take_rows();
    let ids: Vec<i32> = rows.iter().map(|r| r.id).collect();
    let table = VendorsDatabaseTable::with_rows(rows);
    let again: Vec<i32> = table.rows().iter().map(|r| r.id).collect();
    assert_eq!(ids, again);
}

fn ticket_devices() -> TicketDevicesDatabaseJunctionTable {
    TicketDevicesDatabaseJunctionTable::with_rows(vec![
        TicketDevicesDatabaseJunctionTableRow { ticket: 1, device: 10 },
        TicketDevicesDatabaseJunctionTableRow { ticket: 2, device: 20 },
    ])
}

fn parts() -> PartsDatabaseTable {
    PartsDatabaseTable::with_rows(vec![
        PartsDatabaseTableRow { id: 100 },
        PartsDatabaseTableRow { id: 200 },
        PartsDatabaseTableRow { id: 300 },
    ])
}

fn keys_of(keys: &[(i32, i32, i32)]) -> BundleKeys {
    let mut set = BundleKeys::new();
    for key in keys {
        set.insert(*key);
    }
    set
}

#[test]
fn bundle_keys_hold_each_key_once() {
    let mut keys = BundleKeys::new();
    assert!(!keys.contains((1, 2, 3)));
    assert!(keys.insert((1, 2, 3)));
    assert!(!keys.insert((1, 2, 3)));
    assert!(keys.contains((1, 2, 3)));
    assert!(!keys.contains((3, 2, 1)));
    assert!(keys.insert((-1, i32::MIN, i32::MAX)));
    assert!(keys.contains((-1, i32::MIN, i32::MAX)));
    assert!(!keys.contains((-1, i32::MAX, i32::MIN)));
    assert!(!keys.contains((0, 0, 0)));
}

#[test]
fn bundled_part_takes_the_only_free_key() {
    let devices = ticket_devices();
    let parts = parts();
    let all: Vec<(i32, i32, i32)> = vec![
        (1, 10, 100),
        (1, 10, 200),
        (1, 10, 300),
        (2, 20, 100),
        (2, 20, 300),
    ];
    for _ in 0..20 {
        let mut existing = keys_of(&all);
        let row = BundledPartsDatabaseJunctionTableRow::generate(&[], &mut existing, (&devices, &parts));
        assert_eq!((row.ticket, row.device, row.part), (2, 20, 200));
        assert!(existing.contains((2, 20, 200)));
        assert!(all.iter().all(|key| existing.contains(*key)));
    }
}

#[test]
fn bundled_parts_fill_every_combination_once() {
    let devices = ticket_devices();
    let parts = parts();
    let mut existing = BundleKeys::new();
    let mut rows = Vec::new();
    for _ in 0..6 {
        let row = BundledPartsDatabaseJunctionTableRow::generate(&rows, &mut existing, (&devices, &parts));
        assert!(devices.rows().iter().any(|d| d.ticket == row.ticket && d.device == row.device));
        assert!(parts.rows().iter().any(|p| p.id() == row.part));
        assert!(existing.contains((row.ticket, row.device, row.part)));
        rows.push(row);
    }
    let distinct: HashSet<(i32, i32, i32)> = rows.iter().map(|r| (r.ticket, r.device, r.part)).collect();
    assert_eq!(distinct.len(), 6);
    let table = BundledPartsDatabaseJunctionTable::with_rows(rows);
    assert_eq!(table.rows().len(), 6);
    assert_eq!(table.take_rows().len(), 6);
}

#[test]
fn bundled_part_draws_every_free_pair() {
    let devices = ticket_devices();
    let parts = parts();
    let taken = [(1, 10, 100), (1, 10, 200), (2, 20, 100)];
    let mut seen: HashSet<(i32, i32, i32)> = HashSet::new();
    for _ in 0..400 {
        let mut existing = keys_of(&taken);
        let row = BundledPartsDatabaseJunctionTableRow::generate(&[], &mut existing, (&devices, &parts));
        let key = (row.ticket, row.device, row.part);
        assert!(!taken.contains(&key));
        seen.insert(key);
    }
    let expected: HashSet<(i32, i32, i32)> = [(1, 10, 300), (2, 20, 200), (2, 20, 300)].into_iter().collect();
    assert_eq!(seen, expected);
}

#[test]
fn picking_at_random_returns_a_row_of_the_table() {
    let devices = ticket_devices();
    let parts = parts();
    for _ in 0..20 {
        let d = devices.pick_random();
        assert!(d.ticket == 1 || d.ticket == 2);
        let p = parts.pick_random();
        assert!([100, 200, 300].contains(&p.id));
    }
    assert_eq!(devices.take_rows().len(), 2);
    assert_eq!(parts.take_rows().len(), 3);
}

#[test]
fn tickets_refer_to_existing_customers_and_invoices() {
    let customers = CustomersTable::with_records(vec![
        CustomersTableRecord { id: 7 },
        CustomersTableRecord { id: 8 },
    ]);
    let invoices = InvoicesTable::with_records(vec![InvoicesTableRecord { id: 40 }]);
    let mut existing: HashSet<i32> = HashSet::new();
    let mut records: Vec<TicketsTableRecord> = Vec::new();
    for _ in 0..50 {
        let record = TicketsTableRecord::generate(&records, &mut existing, (&customers, &invoices));
        assert!(record.id >= 0);
        assert!(record.status.is_some());
        if let Some(c) = record.customer {
            assert!(c == 7 || c == 8);
        }
        if let Some(i) = record.invoice {
            assert_eq!(i, 40);
        }
        assert!(record.notes.is_none());
        let created = record.created_at.unwrap();
        let updated = record.updated_at.unwrap();
        assert!(created <= updated);
        assert!(!record.description.is_empty());
        records.push(record);
    }
    let ids: HashSet<i32> = records.iter().map(|r| r.id()).collect();
    assert_eq!(ids.len(), 50);
    assert_eq!(existing, ids);
    assert_eq!(customers.records().len(), 2);
    assert_eq!(invoices.records().len(), 1);
    let table = TicketsTable::with_records(records);
    assert_eq!(table.records().len(), 50);
    assert_eq!(table.take_records().len(), 50);
}

fn vendor_from_rolls(rolls: (u32, u32, u32)) -> VendorsDatabaseTableRow {
    VendorsDatabaseTableRow::from_rolls(
        9,
        "Acme Parts".to_string(),
        "sales@acme.com".to_string(),
        "(555) 123-4567".to_string(),
        "12 Main Street".to_string(),
        rolls,
    )
}

#[test]
fn vendor_columns_follow_their_own_chances() {
    assert_eq!((EMAIL_ADDRESS_PERCENT, PHONE_NUMBER_PERCENT, STREET_ADDRESS_PERCENT), (70, 50, 20));
    let row = vendor_from_rolls((69, 49, 19));
    assert_eq!(row.id, 9);
    assert_eq!(row.display_name, "Acme Parts");
    assert_eq!(row.email_address.as_deref(), Some("sales@acme.com"));
    assert_eq!(row.phone_number.as_deref(), Some("(555) 123-4567"));
    assert_eq!(row.street_address.as_deref(), Some("12 Main Street"));
    let row = vendor_from_rolls((70, 50, 20));
    assert_eq!((row.email_address, row.phone_number, row.street_address), (None, None, None));
    let row = vendor_from_rolls((60, 60, 60));
    assert!(row.email_address.is_some());
    assert!(row.phone_number.is_none());
    assert!(row.street_address.is_none());
    let row = vendor_from_rolls((99, 0, 10));
    assert!(row.email_address.is_none());
    assert!(row.phone_number.is_some());
    assert!(row.street_address.is_some());
}

#[test]
fn vendor_values_are_bound_in_column_order() {
    assert_eq!(
        VendorsDatabaseTable::column_names(),
        vec!["id", "display_name", "email_address", "phone_number", "street_address"]
    );
    let (id, name, email, phone, street) = vendor_from_rolls((0, 99, 0)).into_bindings();
    assert_eq!(id, 9);
    assert_eq!(name, "Acme Parts");
    assert_eq!(email.as_deref(), Some("sales@acme.com"));
    assert_eq!(phone, None);
    assert_eq!(street.as_deref(), Some("12 Main Street"));
}

#[test]
fn vendors_generation_adds_one_row_at_a_time() {
    let mut generation = VendorsGeneration::new();
    assert_eq!(generation.len(), 0);
    for k in 1..=25 {
        generation.push_row();
        assert_eq!(generation.len(), k);
    }
    let table = generation.finish();
    let rows = table.rows();
    assert_eq!(rows.len(), 25);
    let ids: HashSet<i32> = rows.iter().map(|r| r.id).collect();
    assert_eq!(ids.len(), 25);
    rows.iter().for_each(check_vendor_contents);
}

#[test]
fn ticket_references_follow_their_own_chances() {
    assert_eq!((CUSTOMER_PERCENT, INVOICE_PERCENT), (95, 80));
    let created = chrono::DateTime::from_timestamp(1_500_000_000, 0).unwrap().naive_utc();
    let updated = chrono::DateTime::from_timestamp(1_500_086_400, 0).unwrap().naive_utc();
    let make = |rolls: (u32, u32)| {
        TicketsTableRecord::from_rolls(
            3,
            TicketStatus::InRepair,
            "cracked screen".to_string(),
            created,
            updated,
            (7, 40),
            rolls,
        )
    };
    let record = make((94, 79));
    assert_eq!((record.customer, record.invoice), (Some(7), Some(40)));
    assert_eq!(record.id, 3);
    assert_eq!(record.status, Some(TicketStatus::InRepair));
    assert_eq!(record.description, "cracked screen");
    assert!(record.notes.is_none());
    assert_eq!(record.created_at, Some(created));
    assert_eq!(record.updated_at, Some(updated));
    let record = make((95, 80));
    assert_eq!((record.customer, record.invoice), (None, None));
    let record = make((90, 85));
    assert_eq!((record.customer, record.invoice), (Some(7), None));
    let record = make((99, 0));
    assert_eq!((record.customer, record.invoice), (None, Some(40)));
}
