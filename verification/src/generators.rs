//! Generators of seed values: unique identifiers, optional values, names, addresses,
//! telephone numbers, diagnoses, ticket statuses and times.

use chrono::NaiveDateTime;
use std::collections::HashSet;
use vstd::prelude::*;

use crate::random::{random_index, random_u64_in, roll_percent};
use crate::shared_models::TicketStatus;

verus! {

/// Some value at or above `min` is still free in `taken`.
pub open spec fn has_free_value(taken: Set<i32>, min: i32) -> bool {
    exists|v: i32| min <= v && !taken.contains(v)
}

/// A finite set with fewer elements than there are values in `min..=i32::MAX` leaves one
/// of them free.
pub proof fn lemma_free_value_exists(taken: Set<i32>, min: i32)
    requires
        taken.finite(),
        taken.len() < i32::MAX - min + 1,
    ensures
        has_free_value(taken, min),
{
    if !has_free_value(taken, min) {
        let all = Set::<i32>::range_inclusive(min, i32::MAX);
        <i32 as vstd::set_lib::FiniteRange>::range_properties(min, i32::MAX);
        assert(all.subset_of(taken)) by {
            assert forall|v: i32| all.contains(v) implies taken.contains(v) by {
                assert(min <= v);
            }
        }
        vstd::set_lib::lemma_len_subset(all, taken);
    }
}

/// Picks an integer at or above `min` that `existing` does not hold, and adds it there.
///
/// The first candidate is drawn at random from `min..=i32::MAX`; when it is taken, the
/// values above it and then the values from `min` up are tried in turn, so the search
/// ends as soon as a free value exists, which `requires` asks for.
pub fn generate_unique_i32(min: i32, existing: &mut HashSet<i32>) -> (id: i32)
    requires
        has_free_value(old(existing)@, min),
    ensures
        min <= id,
        !old(existing)@.contains(id),
        final(existing)@ == old(existing)@.insert(id),
{
    broadcast use vstd::std_specs::hash::group_hash_axioms;

    let ghost taken = existing@;
    let span: u64 = (i32::MAX as i64 - min as i64) as u64;
    let offset = random_u64_in(0, span);
    let start: i32 = (min as i64 + offset as i64) as i32;

    let mut cur = start;
    while cur < i32::MAX
        invariant
            min <= start <= cur <= i32::MAX,
            existing@ == taken,
            taken == old(existing)@,
            forall|v: i32| start <= v < cur ==> taken.contains(v),
        decreases i32::MAX - cur,
    {
        if !existing.contains(&cur) {
            existing.insert(cur);
            return cur;
        }
        cur = cur + 1;
    }
    if !existing.contains(&cur) {
        existing.insert(cur);
        return cur;
    }
    let mut cur = min;
    while cur < start
        invariant
            min <= cur <= start,
            existing@ == taken,
            taken == old(existing)@,
            forall|v: i32| start <= v ==> taken.contains(v),
            forall|v: i32| min <= v < cur ==> taken.contains(v),
        decreases start - cur,
    {
        if !existing.contains(&cur) {
            existing.insert(cur);
            return cur;
        }
        cur = cur + 1;
    }
    proof {
        let w = choose|v: i32| min <= v && !taken.contains(v);
        assert(taken.contains(w));
    }
    vstd::pervasive::unreached()
}


/// `Some(value)` when `roll` falls below `percent`, `None` otherwise: with a roll drawn
/// from `0..100`, the value is kept with a chance of `percent` in a hundred.
pub open spec fn option_for_roll<T>(value: T, roll: u32, percent: u32) -> Option<T> {
    if roll < percent {
        Some(value)
    } else {
        None
    }
}

/// Of the hundred rolls in `0..100`, exactly `percent` keep the value (all hundred from 100
/// up), and they are the lowest ones: with a roll drawn uniformly from `0..100`, the value
/// is kept with a chance of `percent` in a hundred.
pub proof fn law_percent_is_share_of_rolls<T>(value: T, percent: u32)
    ensures
        Set::new(|r: u32| r < 100 && option_for_roll(value, r, percent) is Some).finite(),
        Set::new(|r: u32| r < 100 && option_for_roll(value, r, percent) is Some).len() == (if percent
            < 100 {
            percent
        } else {
            100
        }),
        forall|r: u32, s: u32|
            s <= r && option_for_roll(value, r, percent) is Some ==> option_for_roll(value, s, percent)
                is Some,
        forall|r: u32| option_for_roll(value, r, percent) is None ==> r >= percent,
{
    let share: u32 = if percent < 100 {
        percent
    } else {
        100
    };
    <u32 as vstd::set_lib::FiniteRange>::range_properties(0, share);
    assert(Set::new(|r: u32| r < 100 && option_for_roll(value, r, percent) is Some)
        =~= Set::<u32>::range(0, share));
}

/// `Some(value)` when `roll` falls below `percent`, `None` otherwise.
pub fn option_from_roll<T>(value: T, roll: u32, percent: u32) -> (result: Option<T>)
    ensures
        result == option_for_roll(value, roll, percent),
{
    if roll < percent {
        Some(value)
    } else {
        None
    }
}

/// `Some(value)` with a chance of `percent` in a hundred, `None` otherwise.
pub fn generate_option<T>(value: T, percent: u32) -> (result: Option<T>)
    ensures
        exists|roll: u32| roll < 100 && result == option_for_roll(value, roll, percent),
        result == Some(value) || result == None::<T>,
        percent >= 100 ==> result == Some(value),
        percent == 0 ==> result == None::<T>,
{
    let roll = roll_percent();
    option_from_roll(value, roll, percent)
}

/// A decimal digit.
pub open spec fn is_digit(c: char) -> bool {
    '0' <= c && c <= '9'
}

/// A digit other than zero.
pub open spec fn is_nonzero_digit(c: char) -> bool {
    '1' <= c && c <= '9'
}

/// The digit that writes `d`, for `d < 10`.
fn digit_str(d: usize) -> (s: &'static str)
    requires
        d < 10,
    ensures
        s@.len() == 1,
        is_digit(s@[0]),
        d > 0 ==> is_nonzero_digit(s@[0]),
{
    proof {
        reveal_strlit("0");
        reveal_strlit("1");
        reveal_strlit("2");
        reveal_strlit("3");
        reveal_strlit("4");
        reveal_strlit("5");
        reveal_strlit("6");
        reveal_strlit("7");
        reveal_strlit("8");
        reveal_strlit("9");
    }
    match d {
        0 => "0",
        1 => "1",
        2 => "2",
        3 => "3",
        4 => "4",
        5 => "5",
        6 => "6",
        7 => "7",
        8 => "8",
        _ => "9",
    }
}

/// Appends `count` random digits to `s`, the first of them not zero when `leading_nonzero`.
fn append_random_digits(s: &mut String, count: usize, leading_nonzero: bool)
    ensures
        final(s)@.len() == old(s)@.len() + count,
        forall|k: int| 0 <= k < old(s)@.len() ==> #[trigger] final(s)@[k] == old(s)@[k],
        forall|k: int| old(s)@.len() <= k < final(s)@.len() ==> is_digit(#[trigger] final(s)@[k]),
        leading_nonzero && count > 0 ==> is_nonzero_digit(final(s)@[old(s)@.len() as int]),
{
    let ghost start = s@;
    let mut k: usize = 0;
    while k < count
        invariant
            0 <= k <= count,
            s@.len() == start.len() + k,
            forall|l: int| 0 <= l < start.len() ==> #[trigger] s@[l] == start[l],
            forall|l: int| start.len() <= l < s@.len() ==> is_digit(#[trigger] s@[l]),
            leading_nonzero && k > 0 ==> is_nonzero_digit(s@[start.len() as int]),
        decreases count - k,
    {
        let d = if k == 0 && leading_nonzero {
            random_index(9) + 1
        } else {
            random_index(10)
        };
        let ghost before = s@;
        s.append(digit_str(d));
        assert(forall|l: int| 0 <= l < before.len() ==> s@[l] == before[l]);
        k = k + 1;
    }
}

/// A telephone number written `(ddd) ddd-dddd`.
pub open spec fn is_phone_number(s: Seq<char>) -> bool {
    &&& s.len() == 14
    &&& s[0] == '('
    &&& s[4] == ')'
    &&& s[5] == ' '
    &&& s[9] == '-'
    &&& forall|k: int|
        0 <= k < 14 && k != 0 && k != 4 && k != 5 && k != 9 ==> is_digit(#[trigger] s[k])
}

/// A random telephone number.
pub fn generate_phone_number() -> (phone: String)
    ensures
        is_phone_number(phone@),
{
    proof {
        reveal_strlit("(");
        reveal_strlit(") ");
        reveal_strlit("-");
    }
    let mut phone = String::from_str("(");
    append_random_digits(&mut phone, 3, false);
    phone.append(") ");
    append_random_digits(&mut phone, 3, false);
    phone.append("-");
    append_random_digits(&mut phone, 4, false);
    phone
}

/// The first words of generated company names.
pub open spec fn company_stems() -> Seq<Seq<char>> {
    seq!["Apex"@, "Summit"@, "Northwind"@, "Bluefield"@, "Ironclad"@, "Keystone"@, "Harbor"@, "Redwood"@]
}

/// The last words of generated company names.
pub open spec fn company_suffixes() -> Seq<Seq<char>> {
    seq!["Supply"@, "Electronics"@, "Components"@, "Distribution"@, "Parts"@, "Industries"@]
}

/// A company name made of a stem and a suffix, with a space between them.
pub open spec fn is_company_name(s: Seq<char>) -> bool {
    exists|i: int, j: int|
        #![trigger company_stems()[i], company_suffixes()[j]]
        0 <= i < company_stems().len() && 0 <= j < company_suffixes().len() && s
            == company_stems()[i] + " "@ + company_suffixes()[j]
}

fn company_stem(i: usize) -> (w: &'static str)
    requires
        i < 8,
    ensures
        w@ == company_stems()[i as int],
{
    match i {
        0 => "Apex",
        1 => "Summit",
        2 => "Northwind",
        3 => "Bluefield",
        4 => "Ironclad",
        5 => "Keystone",
        6 => "Harbor",
        _ => "Redwood",
    }
}

fn company_suffix(i: usize) -> (w: &'static str)
    requires
        i < 6,
    ensures
        w@ == company_suffixes()[i as int],
{
    match i {
        0 => "Supply",
        1 => "Electronics",
        2 => "Components",
        3 => "Distribution",
        4 => "Parts",
        _ => "Industries",
    }
}

/// A random company name.
pub fn generate_company_name() -> (name: String)
    ensures
        is_company_name(name@),
{
    let i = random_index(8);
    let j = random_index(6);
    let stem = company_stem(i);
    let suffix = company_suffix(j);
    let mut name = String::from_str(stem);
    name.append(" ");
    name.append(suffix);
    assert(name@ == company_stems()[i as int] + " "@ + company_suffixes()[j as int]);
    name
}

/// The mailbox names of generated e-mail addresses.
pub open spec fn email_mailboxes() -> Seq<Seq<char>> {
    seq!["sales"@, "orders"@, "support"@, "info"@, "contact"@]
}

/// The domains of generated e-mail addresses.
pub open spec fn email_domains() -> Seq<Seq<char>> {
    seq!["example.com"@, "example.net"@, "example.org"@]
}

/// An e-mail address made of a mailbox, `@` and a domain.
pub open spec fn is_email_address(s: Seq<char>) -> bool {
    exists|i: int, j: int|
        #![trigger email_mailboxes()[i], email_domains()[j]]
        0 <= i < email_mailboxes().len() && 0 <= j < email_domains().len() && s
            == email_mailboxes()[i] + "@"@ + email_domains()[j]
}

fn email_mailbox(i: usize) -> (w: &'static str)
    requires
        i < 5,
    ensures
        w@ == email_mailboxes()[i as int],
{
    match i {
        0 => "sales",
        1 => "orders",
        2 => "support",
        3 => "info",
        _ => "contact",
    }
}

fn email_domain(i: usize) -> (w: &'static str)
    requires
        i < 3,
    ensures
        w@ == email_domains()[i as int],
{
    match i {
        0 => "example.com",
        1 => "example.net",
        _ => "example.org",
    }
}

/// A random e-mail address.
pub fn generate_email_address() -> (address: String)
    ensures
        is_email_address(address@),
{
    let i = random_index(5);
    let j = random_index(3);
    let mut address = String::from_str(email_mailbox(i));
    address.append("@");
    address.append(email_domain(j));
    assert(address@ == email_mailboxes()[i as int] + "@"@ + email_domains()[j as int]);
    address
}

/// The names of the streets of generated addresses.
pub open spec fn street_names() -> Seq<Seq<char>> {
    seq!["Oak"@, "Maple"@, "Cedar"@, "Elm"@, "Pine"@, "Willow"@, "Lake"@, "Hill"@]
}

/// The kinds of street of generated addresses.
pub open spec fn street_suffixes() -> Seq<Seq<char>> {
    seq!["Street"@, "Avenue"@, "Road"@, "Lane"@, "Drive"@]
}

/// A street address: a house number of three digits without a leading zero, a space, a
/// street name, a space and a kind of street.
pub open spec fn is_street_address(s: Seq<char>) -> bool {
    &&& s.len() >= 3
    &&& is_nonzero_digit(s[0])
    &&& is_digit(s[1])
    &&& is_digit(s[2])
    &&& exists|i: int, j: int|
        #![trigger street_names()[i], street_suffixes()[j]]
        0 <= i < street_names().len() && 0 <= j < street_suffixes().len() && s.subrange(
            3,
            s.len() as int,
        ) == " "@ + street_names()[i] + " "@ + street_suffixes()[j]
}

fn street_name(i: usize) -> (w: &'static str)
    requires
        i < 8,
    ensures
        w@ == street_names()[i as int],
{
    match i {
        0 => "Oak",
        1 => "Maple",
        2 => "Cedar",
        3 => "Elm",
        4 => "Pine",
        5 => "Willow",
        6 => "Lake",
        _ => "Hill",
    }
}

fn street_suffix(i: usize) -> (w: &'static str)
    requires
        i < 5,
    ensures
        w@ == street_suffixes()[i as int],
{
    match i {
        0 => "Street",
        1 => "Avenue",
        2 => "Road",
        3 => "Lane",
        _ => "Drive",
    }
}

/// A random street address.
pub fn generate_street_address() -> (address: String)
    ensures
        is_street_address(address@),
{
    let mut address = String::new();
    append_random_digits(&mut address, 3, true);
    let ghost number = address@;
    let i = random_index(8);
    let j = random_index(5);
    address.append(" ");
    address.append(street_name(i));
    address.append(" ");
    address.append(street_suffix(j));
    assert(address@ == number + " "@ + street_names()[i as int] + " "@ + street_suffixes()[j as int]);
    assert(address@.subrange(3, address@.len() as int) =~= " "@ + street_names()[i as int] + " "@
        + street_suffixes()[j as int]);
    assert(address@[0] == number[0] && address@[1] == number[1] && address@[2] == number[2]);
    address
}

/// The diagnoses that generated tickets describe.
pub open spec fn diagnostics() -> Seq<Seq<char>> {
    seq![
        "Cracked screen"@,
        "Battery does not hold a charge"@,
        "Does not power on"@,
        "Water damage"@,
        "Loose charging port"@,
        "Overheats under load"@,
    ]
}

/// A random diagnosis.
pub fn generate_diagnostic() -> (diagnostic: String)
    ensures
        diagnostics().contains(diagnostic@),
{
    let i = random_index(6);
    let text = match i {
        0 => "Cracked screen",
        1 => "Battery does not hold a charge",
        2 => "Does not power on",
        3 => "Water damage",
        4 => "Loose charging port",
        _ => "Overheats under load",
    };
    let diagnostic = String::from_str(text);
    assert(diagnostic@ == diagnostics()[i as int]);
    diagnostic
}

/// A random ticket status.
pub fn generate_ticket_status() -> (status: TicketStatus) {
    TicketStatus::from_index(random_index(6))
}

/// The earliest creation time of a generated record, 2015-01-01 00:00:00 UTC, in seconds
/// since the Unix epoch.
pub const FIRST_CREATED_AT: i64 = 1_420_070_400;

/// The latest creation time of a generated record, 2024-12-31 23:59:59 UTC.
pub const LAST_CREATED_AT: i64 = 1_735_689_599;

/// The longest time, in seconds, between the creation and the last update of a generated
/// record: sixty days.
pub const MAX_UPDATE_DELAY: i64 = 5_184_000;

/// The earliest time, in seconds since the Unix epoch, that [`datetime_at`] accepts: about
/// 253 000 years before 1970, well inside chrono's range of years.
pub const FIRST_SUPPORTED_TIMESTAMP: i64 = -8_000_000_000_000;

/// The latest time, in seconds since the Unix epoch, that [`datetime_at`] accepts: about
/// 253 000 years after 1970, well inside chrono's range of years.
pub const LAST_SUPPORTED_TIMESTAMP: i64 = 8_000_000_000_000;

/// A random time in seconds since the Unix epoch: without `after`, a creation time in
/// `FIRST_CREATED_AT..=LAST_CREATED_AT`; with `after`, a time at most `MAX_UPDATE_DELAY`
/// seconds later than it.
pub fn generate_timestamp(after: Option<i64>) -> (secs: i64)
    requires
        after matches Some(t) ==> t <= i64::MAX - MAX_UPDATE_DELAY,
    ensures
        after is None ==> FIRST_CREATED_AT <= secs <= LAST_CREATED_AT,
        after matches Some(t) ==> t <= secs <= t + MAX_UPDATE_DELAY,
{
    match after {
        None => {
            let offset = random_u64_in(0, (LAST_CREATED_AT - FIRST_CREATED_AT) as u64);
            FIRST_CREATED_AT + offset as i64
        },
        Some(t) => {
            let offset = random_u64_in(0, MAX_UPDATE_DELAY as u64);
            t + offset as i64
        },
    }
}

/// The date and time, in UTC without a time zone, `secs` seconds after the Unix epoch, as
/// chrono computes it. It depends on the seconds alone.
pub uninterp spec fn datetime_of(secs: i64) -> NaiveDateTime;

/// `chrono::DateTime::from_timestamp(secs, 0)`, mapped by `naive_utc`. By chrono's source the
/// result is `Some` whenever the day lies within its range of years (-262143 to 262142),
/// which holds of every `secs` in `FIRST_SUPPORTED_TIMESTAMP..=LAST_SUPPORTED_TIMESTAMP`; the
/// date and time it holds are named [`datetime_of`], a function of the seconds alone.
#[verifier::external_body]
fn datetime_from_timestamp(secs: i64) -> (date: Option<NaiveDateTime>)
    ensures
        FIRST_SUPPORTED_TIMESTAMP <= secs <= LAST_SUPPORTED_TIMESTAMP ==> date == Some(
            datetime_of(secs),
        ),
{
    chrono::DateTime::from_timestamp(secs, 0).map(|d| d.naive_utc())
}

/// The date and time `secs` seconds after the Unix epoch.
pub fn datetime_at(secs: i64) -> (date: NaiveDateTime)
    requires
        FIRST_SUPPORTED_TIMESTAMP <= secs <= LAST_SUPPORTED_TIMESTAMP,
    ensures
        date == datetime_of(secs),
{
    match datetime_from_timestamp(secs) {
        Some(date) => date,
        None => vstd::pervasive::unreached(),
    }
}

} // verus!
