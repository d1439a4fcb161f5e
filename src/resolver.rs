//! Resolving an identifier to a device.
//!
//! Resolution takes a few steps, each a decision on what the previous outside
//! call returned: an identifier names either a zone of an irrigation host or
//! a record of the device catalog; a catalog record of an irrigation host is
//! completed with the host's live system state, and one of a television with
//! its live volume state.

use vstd::prelude::*;

use crate::device::{is_default_device, Device, DeviceState};
use crate::device_type::DeviceType;
use crate::sqlsprinkler::{first_zone_with_id, is_zone_device, Zone};
use crate::text::{digit_char, digit_value, digits_value, int_text, nat_text, parse_int};
use crate::zone_id::{check_if_zone, is_zone_id, zone_host, zone_index};

verus! {

/// Where the device an identifier names comes from.
#[derive(Debug, Clone, PartialEq, Eq)]
pub enum Lookup {
    /// A zone: the host's identifier and the zone's index.
    Zone { host_id: String, index: u8 },
    /// A record of the device catalog, under this identifier.
    Record(String),
}

/// Classifies an identifier: a zone identifier names a zone of its host,
/// anything else names a catalog record.
pub fn lookup(guid: &str) -> (r: Lookup)
    ensures
        is_zone_id(guid@) ==> (r matches Lookup::Zone { host_id, index } && host_id@ == zone_host(
            guid@,
        ) && index as nat == zone_index(guid@)),
        !is_zone_id(guid@) ==> (r matches Lookup::Record(id) && id@ == guid@),
{
    if !check_if_zone(guid) {
        return Lookup::Record(String::from_str(guid));
    }
    let n = guid.unicode_len();
    let host = guid.substring_char(0, n - 2);
    let digit = guid.get_char(n - 1);
    assert(host@ =~= zone_host(guid@));
    Lookup::Zone { host_id: String::from_str(host), index: (digit as u32 - '0' as u32) as u8 }
}

/// What remains to be done with a catalog record.
#[derive(Debug, Clone, PartialEq, Eq)]
pub enum RecordStep {
    /// The device is resolved.
    Done(Device),
    /// An irrigation host: its live system state is to be read, stored in the
    /// device and saved to the catalog.
    PollSystem(Device),
    /// A television: whether it is online, and then its volume state, is to
    /// be read.
    ProbeTv(Device),
}

/// The next step for a record fetched from the catalog: a missing record
/// resolves to the default device, an irrigation host or a television needs
/// its live state, any other device is resolved as stored.
pub fn resolve_record(record: Option<Device>) -> (r: RecordStep)
    ensures
        record is None ==> (r matches RecordStep::Done(d) && is_default_device(d)),
        record matches Some(d) ==> r == (if d.kind == DeviceType::SqlSprinklerHost {
            RecordStep::PollSystem(d)
        } else if d.kind == DeviceType::TV {
            RecordStep::ProbeTv(d)
        } else {
            RecordStep::Done(d)
        }),
{
    match record {
        None => RecordStep::Done(Device::default()),
        Some(d) => {
            if d.kind == DeviceType::SqlSprinklerHost {
                RecordStep::PollSystem(d)
            } else if d.kind == DeviceType::TV {
                RecordStep::ProbeTv(d)
            } else {
                RecordStep::Done(d)
            }
        },
    }
}

/// An irrigation host with its live system state.
pub fn with_system_state(dev: Device, enabled: bool) -> (r: Device)
    ensures
        r == (Device { last_state: DeviceState::Flag(enabled), ..dev }),
{
    Device { last_state: DeviceState::Flag(enabled), ..dev }
}

/// When some zone has the id sought, the first such zone is found.
proof fn lemma_first_zone_found(zones: Seq<Zone>, id: int, j: int)
    requires
        0 <= j < zones.len(),
        zones[j].id == id,
    ensures
        first_zone_with_id(zones, id) matches Some(k) && 0 <= k < zones.len() && zones[k].id == id,
    decreases zones.len(),
{
    if zones[0].id != id {
        lemma_first_zone_found(zones.drop_first(), id, j - 1);
    }
}

/// A decimal digit written back as text is the digit itself, and reads back
/// as its value.
proof fn lemma_digit_text(c: char)
    requires
        '0' <= c <= '9',
    ensures
        int_text(digit_value(c) as int) == seq![c],
        parse_int(seq![c]) == Some(digit_value(c) as int),
{
    let d = digit_value(c);
    assert(d < 10);
    assert(nat_text(d) == seq![digit_char(d)]);
    assert(digit_char(d) == c) by {
        if d == 0 {
        } else if d == 1 {
        } else if d == 2 {
        } else if d == 3 {
        } else if d == 4 {
        } else if d == 5 {
        } else if d == 6 {
        } else if d == 7 {
        } else if d == 8 {
        } else {
        }
    }
    assert(seq![c].drop_last() =~= Seq::<char>::empty());
    assert(digits_value(Seq::<char>::empty()) == 0);
    assert(seq![c].last() == c);
    assert(digits_value(seq![c]) == digits_value(seq![c].drop_last()) * 10 + digit_value(c));
}

/// A zone identifier `h-i` resolves, on a host `h` that lists a zone with
/// id `i`, to a sprinkler zone device with that identifier whose software
/// version, the source of its zone number, reads as `i`.
pub proof fn lemma_zone_identifier_resolves(
    guid: Seq<char>,
    host: Device,
    zones: Seq<Zone>,
    j: int,
    r: Device,
)
    requires
        is_zone_id(guid),
        0 <= j < zones.len(),
        zones[j].id == zone_index(guid),
        match first_zone_with_id(zones, zone_index(guid) as int) {
            Some(k) => is_zone_device(r, zone_host(guid), host.ip@, zones[k]),
            None => is_default_device(r),
        },
    ensures
        r.kind == DeviceType::SPRINKLER,
        r.guid@ == guid,
        parse_int(r.sw_version@) == Some(zone_index(guid) as int),
{
    lemma_first_zone_found(zones, zone_index(guid) as int, j);
    let c = guid[guid.len() - 1];
    lemma_digit_text(c);
    assert(guid =~= zone_host(guid) + "-"@ + seq![c]) by {
        reveal_strlit("-");
    }
}

} // verus!
