use std::collections::HashSet;

use repair_shop::generators::{
    datetime_at, generate_company_name, generate_diagnostic, generate_email_address,
    generate_option, generate_phone_number, generate_street_address, generate_timestamp,
    generate_unique_i32, option_from_roll, FIRST_CREATED_AT, FIRST_SUPPORTED_TIMESTAMP, LAST_CREATED_AT, LAST_SUPPORTED_TIMESTAMP,
    MAX_UPDATE_DELAY,
};
use repair_shop::random::{random_index, roll_percent};
use repair_shop::shared_models::{ItemType, TicketStatus};

#[test]
fn unique_i32_avoids_taken_values_and_records_the_new_one() {
    let mut existing: HashSet<i32> = HashSet::new();
    for v in 0..100 {
        existing.insert(v);
    }
    let before = existing.clone();
    let id = generate_unique_i32(0, &mut existing);
    assert!(id >= 0);
    assert!(!before.contains(&id));
    assert!(existing.contains(&id));
    assert_eq!(existing.len(), before.len() + 1);
}

#[test]
fn unique_i32_finds_the_only_free_value() {
    let min = i32::MAX - 9;
    let mut existing: HashSet<i32> = HashSet::new();
    for v in min..=i32::MAX {
        if v != i32::MAX - 4 {
            existing.insert(v);
        }
    }
    for _ in 0..20 {
        let mut taken = existing.clone();
        let id = generate_unique_i32(min, &mut taken);
        assert_eq!(id, i32::MAX - 4);
        assert_eq!(taken.len(), existing.len() + 1);
    }
}

#[test]
fn unique_i32_respects_the_lower_bound() {
    let mut existing: HashSet<i32> = HashSet::new();
    for _ in 0..200 {
        let id = generate_unique_i32(1_000, &mut existing);
        assert!(id >= 1_000);
    }
    assert_eq!(existing.len(), 200);
}

#[test]
fn option_from_roll_keeps_the_value_below_the_percentage() {
    assert_eq!(option_from_roll(7, 69, 70), Some(7));
    assert_eq!(option_from_roll(7, 70, 70), None);
    assert_eq!(option_from_roll(7, 0, 0), None);
    assert_eq!(option_from_roll(7, 99, 100), Some(7));
}

#[test]
fn generate_option_at_the_extremes() {
    for _ in 0..50 {
        assert_eq!(generate_option("x", 100), Some("x"));
        assert_eq!(generate_option("x", 0), None);
        let r = generate_option(3, 50);
        assert!(r == Some(3) || r.is_none());
    }
}

#[test]
fn random_helpers_stay_in_range() {
    for _ in 0..200 {
        assert!(random_index(3) < 3);
        assert_eq!(random_index(1), 0);
        assert!(roll_percent() < 100);
    }
}

fn is_digit(c: char) -> bool {
    c.is_ascii_digit()
}

#[test]
fn phone_numbers_have_the_north_american_shape() {
    for _ in 0..50 {
        let phone = generate_phone_number();
        let chars: Vec<char> = phone.chars().collect();
        assert_eq!(chars.len(), 14, "{}", phone);
        assert_eq!(chars[0], '(');
        assert_eq!(chars[4], ')');
        assert_eq!(chars[5], ' ');
        assert_eq!(chars[9], '-');
        for k in [1, 2, 3, 6, 7, 8, 10, 11, 12, 13] {
            assert!(is_digit(chars[k]), "{}", phone);
        }
    }
}

#[test]
fn company_names_are_a_stem_and_a_suffix() {
    let stems = ["Apex", "Summit", "Northwind", "Bluefield", "Ironclad", "Keystone", "Harbor", "Redwood"];
    let suffixes = ["Supply", "Electronics", "Components", "Distribution", "Parts", "Industries"];
    for _ in 0..50 {
        let name = generate_company_name();
        let words: Vec<&str> = name.split(' ').collect();
        assert_eq!(words.len(), 2, "{}", name);
        assert!(stems.contains(&words[0]), "{}", name);
        assert!(suffixes.contains(&words[1]), "{}", name);
    }
}

#[test]
fn email_addresses_are_a_mailbox_and_a_domain() {
    let mailboxes = ["sales", "orders", "support", "info", "contact"];
    let domains = ["example.com", "example.net", "example.org"];
    for _ in 0..50 {
        let address = generate_email_address();
        let parts: Vec<&str> = address.split('@').collect();
        assert_eq!(parts.len(), 2, "{}", address);
        assert!(mailboxes.contains(&parts[0]));
        assert!(domains.contains(&parts[1]));
    }
}

#[test]
fn street_addresses_have_a_house_number_a_street_and_a_kind() {
    let streets = ["Oak", "Maple", "Cedar", "Elm", "Pine", "Willow", "Lake", "Hill"];
    let kinds = ["Street", "Avenue", "Road", "Lane", "Drive"];
    for _ in 0..50 {
        let address = generate_street_address();
        let words: Vec<&str> = address.split(' ').collect();
        assert_eq!(words.len(), 3, "{}", address);
        let number: u32 = words[0].parse().unwrap();
        assert!((100..=999).contains(&number), "{}", address);
        assert_eq!(words[0].len(), 3);
        assert!(streets.contains(&words[1]));
        assert!(kinds.contains(&words[2]));
    }
}

#[test]
fn diagnoses_come_from_the_list() {
    let diagnoses = [
        "Cracked screen",
        "Battery does not hold a charge",
        "Does not power on",
        "Water damage",
        "Loose charging port",
        "Overheats under load",
    ];
    for _ in 0..30 {
        assert!(diagnoses.contains(&generate_diagnostic().as_str()));
    }
}

#[test]
fn timestamps_fall_in_their_windows() {
    for _ in 0..100 {
        let created = generate_timestamp(None);
        assert!((FIRST_CREATED_AT..=LAST_CREATED_AT).contains(&created));
        let updated = generate_timestamp(Some(created));
        assert!(created <= updated && updated <= created + MAX_UPDATE_DELAY);
    }
}

#[test]
fn datetime_at_converts_unix_time() {
    let epoch = datetime_at(0);
    assert_eq!(epoch.to_string(), "1970-01-01 00:00:00");
    let first = datetime_at(FIRST_CREATED_AT);
    assert_eq!(first.to_string(), "2015-01-01 00:00:00");
    let day_later = datetime_at(FIRST_CREATED_AT + 86_400);
    assert_eq!(day_later.to_string(), "2015-01-02 00:00:00");
    let before_epoch = datetime_at(-86_400);
    assert_eq!(before_epoch.to_string(), "1969-12-31 00:00:00");
    let far = datetime_at(LAST_SUPPORTED_TIMESTAMP);
    assert!(far > datetime_at(FIRST_SUPPORTED_TIMESTAMP));
}

#[test]
fn ticket_statuses_are_stored_in_snake_case() {
    assert_eq!(TicketStatus::New.as_str(), "new");
    assert_eq!(TicketStatus::WaitingForParts.as_str(), "waiting_for_parts");
    assert_eq!(TicketStatus::WaitingForCustomer.as_str(), "waiting_for_customer");
    assert_eq!(TicketStatus::InRepair.as_str(), "in_repair");
    assert_eq!(TicketStatus::ReadyForPickup.as_str(), "ready_for_pickup");
    assert_eq!(TicketStatus::Closed.as_str(), "closed");
    assert_eq!(TicketStatus::from_index(0), TicketStatus::New);
    assert_eq!(TicketStatus::from_index(5), TicketStatus::Closed);
    assert_ne!(ItemType::Product, ItemType::Service);
}

#[test]
fn ticket_status_names_are_distinct() {
    let names: std::collections::HashSet<&str> = (0..6).map(|i| TicketStatus::from_index(i).as_str()).collect();
    assert_eq!(names.len(), 6);
}
