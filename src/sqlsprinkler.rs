//! Irrigation hosts and their zones: the zone records a host reports, the
//! devices made from them, and the requests that switch a host or a zone.

use vstd::prelude::*;

use crate::device::{is_default_device, Device, DeviceState};
use crate::device_type::DeviceType;
use crate::hardware_type::HardwareType;
use crate::http::{HttpMethod, HttpRequest};
use crate::text::{bool_str, bool_text, int_text, integer_to_text};

verus! {

/// One zone as an irrigation host reports it.
#[derive(Debug, Clone, PartialEq, Eq)]
pub struct Zone {
    pub name: String,
    pub gpio: u8,
    pub time: u64,
    pub enabled: bool,
    pub auto_off: bool,
    pub system_order: i8,
    pub state: bool,
    pub id: i8,
}

/// `d` is the device of `zone` on the host `host_guid` reached at `host_ip`:
/// its identifier is `<host_guid>-<zone id>`, its names come from the zone's
/// name and its place in the system, and its software version holds the
/// zone's id.
pub open spec fn is_zone_device(d: Device, host_guid: Seq<char>, host_ip: Seq<char>, zone: Zone) -> bool {
    &&& d.ip@ == host_ip
    &&& d.guid@ == host_guid + "-"@ + int_text(zone.id as int)
    &&& d.kind == DeviceType::SPRINKLER
    &&& d.hardware == HardwareType::PI
    &&& d.last_state == DeviceState::Zone { on: zone.state, id: zone.id, index: zone.system_order }
    &&& d.last_seen@ == Seq::<char>::empty()
    &&& d.sw_version@ == int_text(zone.id as int)
    &&& d.useruuid@ == Seq::<char>::empty()
    &&& d.name@ == zone.name@
    &&& d.nicknames.deep_view() == seq![zone.name@, "Zone "@ + int_text(zone.system_order + 1)]
}

/// The position of the first zone with the given id, if any.
pub open spec fn first_zone_with_id(zones: Seq<Zone>, id: int) -> Option<int>
    decreases zones.len(),
{
    if zones.len() == 0 {
        None
    } else if zones[0].id == id {
        Some(0)
    } else {
        match first_zone_with_id(zones.drop_first(), id) {
            Some(j) => Some(j + 1),
            None => None,
        }
    }
}

/// The device of one zone of the host `host_guid` reached at `host_ip`.
pub fn zone_device(host_guid: &str, host_ip: &str, zone: &Zone) -> (r: Device)
    ensures
        is_zone_device(r, host_guid@, host_ip@, *zone),
{
    let id_text = integer_to_text(zone.id as i128);
    let mut guid = String::from_str(host_guid);
    guid.append("-");
    guid.append(id_text.as_str());
    let mut zone_name = String::from_str("Zone ");
    zone_name.append(integer_to_text(zone.system_order as i128 + 1).as_str());
    let nicknames = vec![zone.name.clone(), zone_name];
    assert(nicknames.deep_view() =~= seq![zone.name@, "Zone "@ + int_text(zone.system_order + 1)]);
    Device {
        ip: String::from_str(host_ip),
        guid,
        kind: DeviceType::SPRINKLER,
        hardware: HardwareType::PI,
        last_state: DeviceState::Zone { on: zone.state, id: zone.id, index: zone.system_order },
        last_seen: String::new(),
        sw_version: id_text,
        useruuid: String::new(),
        name: zone.name.clone(),
        nicknames,
    }
}

/// The devices of the zones of `dev`, in the order the host lists them;
/// none when `dev` is not an irrigation host.
pub fn check_if_device_is_sqlsprinkler_host(dev: &Device, zones: &Vec<Zone>) -> (r: Vec<Device>)
    ensures
        dev.kind != DeviceType::SqlSprinklerHost ==> r@.len() == 0,
        dev.kind == DeviceType::SqlSprinklerHost ==> r@.len() == zones@.len(),
        dev.kind == DeviceType::SqlSprinklerHost ==> forall|j: int|
            0 <= j < zones@.len() ==> is_zone_device(#[trigger] r@[j], dev.guid@, dev.ip@, zones@[j]),
{
    let mut devices: Vec<Device> = Vec::new();
    if dev.kind != DeviceType::SqlSprinklerHost {
        return devices;
    }
    let mut i: usize = 0;
    while i < zones.len()
        invariant
            dev.kind == DeviceType::SqlSprinklerHost,
            i <= zones@.len(),
            devices@.len() == i,
            forall|j: int|
                0 <= j < i ==> is_zone_device(#[trigger] devices@[j], dev.guid@, dev.ip@, zones@[j]),
        decreases zones@.len() - i,
    {
        let d = zone_device(dev.guid.as_str(), dev.ip.as_str(), &zones[i]);
        devices.push(d);
        i = i + 1;
    }
    devices
}

/// The device of the zone numbered `index` on the host `host_guid`, whose
/// resolved device is `host` and whose zones are `zones`: the first zone
/// with that id, or the default device when there is none.
pub fn get_zone(host_guid: &str, host: &Device, zones: &Vec<Zone>, index: u8) -> (r: Device)
    ensures
        match first_zone_with_id(zones@, index as int) {
            Some(j) => is_zone_device(r, host_guid@, host.ip@, zones@[j]),
            None => is_default_device(r),
        },
{
    let mut i: usize = 0;
    assert(zones@.skip(0) =~= zones@);
    while i < zones.len()
        invariant
            i <= zones@.len(),
            first_zone_with_id(zones@, index as int) == match first_zone_with_id(
                zones@.skip(i as int),
                index as int,
            ) {
                Some(j) => Some(j + i),
                None => None,
            },
        decreases zones@.len() - i,
    {
        assert(zones@.skip(i as int).drop_first() =~= zones@.skip(i + 1));
        if zones[i].id as i32 == index as i32 {
            return zone_device(host_guid, host.ip.as_str(), &zones[i]);
        }
        i = i + 1;
    }
    Device::default()
}

/// The body that switches the zone `id` on or off.
pub open spec fn zone_toggle_body(id: int, state: bool) -> Seq<char> {
    "{\"id\":"@ + int_text(id) + ",\"state\":"@ + bool_text(state) + "}"@
}

/// The body that switches a whole irrigation system on or off.
pub open spec fn system_toggle_body(state: bool) -> Seq<char> {
    "{\"system_enabled\":"@ + bool_text(state) + "}"@
}

/// The URL of a host's system state.
pub open spec fn system_state_url(ip: Seq<char>) -> Seq<char> {
    "http://"@ + ip + ":3030/system/state"@
}

/// The URL that switches a host's zones.
pub open spec fn zone_url(ip: Seq<char>) -> Seq<char> {
    "http://"@ + ip + ":3030/zone"@
}

/// The URL that lists a host's zones.
pub open spec fn zone_info_url(ip: Seq<char>) -> Seq<char> {
    "http://"@ + ip + ":3030/zone/info"@
}

/// Builds the URL of a host's system state.
pub fn get_system_state_url(ip: &str) -> (r: String)
    ensures
        r@ == system_state_url(ip@),
{
    let mut r = String::from_str("http://");
    r.append(ip);
    r.append(":3030/system/state");
    r
}

/// Builds the URL that lists a host's zones.
pub fn get_zone_info_url(ip: &str) -> (r: String)
    ensures
        r@ == zone_info_url(ip@),
{
    let mut r = String::from_str("http://");
    r.append(ip);
    r.append(":3030/zone/info");
    r
}

/// The request that switches the zone `id` of the host at `ip` on or off.
pub fn set_zone(ip: &str, state: bool, id: i128) -> (r: HttpRequest)
    ensures
        r.method == HttpMethod::Put,
        r.url@ == zone_url(ip@),
        r.body@ == zone_toggle_body(id as int, state),
{
    let mut url = String::from_str("http://");
    url.append(ip);
    url.append(":3030/zone");
    let mut body = String::from_str("{\"id\":");
    body.append(integer_to_text(id).as_str());
    body.append(",\"state\":");
    body.append(bool_str(state));
    body.append("}");
    HttpRequest { method: HttpMethod::Put, url, body }
}

/// The request that switches the whole irrigation system at `ip` on or off.
pub fn set_system(ip: &str, state: bool) -> (r: HttpRequest)
    ensures
        r.method == HttpMethod::Put,
        r.url@ == system_state_url(ip@),
        r.body@ == system_toggle_body(state),
{
    let url = get_system_state_url(ip);
    let mut body = String::from_str("{\"system_enabled\":");
    body.append(bool_str(state));
    body.append("}");
    HttpRequest { method: HttpMethod::Put, url, body }
}

} // verus!
