//! Routing a requested state to the protocol of the device it is meant for.

use vstd::prelude::*;

use crate::device::{api_url_with_param, Device, DeviceState};
use crate::device_type::DeviceType;
use crate::http::{HttpMethod, HttpRequest};
use crate::sqlsprinkler::{
    set_system, set_zone, system_state_url, system_toggle_body, zone_toggle_body, zone_url,
};
use crate::text::{parse_i64, parse_int};
use crate::tv::{
    spec_tv_state_off, SetMuteState, SetPowerState, SetVolState, TvOperation, TvState,
};

verus! {

/// A requested state as it arrives with a command.
#[derive(Debug, Clone, Copy, PartialEq, Eq, Structural)]
pub enum RequestedState {
    /// A bare on/off value.
    Flag(bool),
    /// A television payload: a volume level, a mute setting, or neither.
    Fields { volume_level: Option<u8>, mute: Option<bool> },
}

/// What is to be sent to carry out a command.
#[derive(Debug, Clone, PartialEq, Eq)]
pub enum Command {
    /// A call over HTTP to a relay board or an irrigation host.
    Http(HttpRequest),
    /// An operation on the television.
    Tv(TvOperation),
}

/// Why a command cannot be carried out.
#[derive(Debug, Clone, Copy, PartialEq, Eq, Structural)]
pub enum ApplyError {
    /// The requested state does not have the form the device takes.
    Deserialization,
}

/// The zero-based zone number that a zone device's software version gives:
/// the version read as an integer, less one; 0 when it is not an integer.
pub open spec fn zone_number(sw_version: Seq<char>) -> int {
    match parse_int(sw_version) {
        Some(v) => v - 1,
        None => 0,
    }
}

/// The endpoint of a relay board that turns a device on or off.
pub open spec fn relay_endpoint(on: bool) -> Seq<char> {
    if on {
        "on"@
    } else {
        "off"@
    }
}

/// `r` is the HTTP call with this method, URL and body.
pub open spec fn is_http(
    r: Result<Command, ApplyError>,
    method: HttpMethod,
    url: Seq<char>,
    body: Seq<char>,
) -> bool {
    &&& r matches Ok(Command::Http(h))
    &&& r->Ok_0->Http_0.method == method
    &&& r->Ok_0->Http_0.url@ == url
    &&& r->Ok_0->Http_0.body@ == body
}

/// `r` is how a request for state `req` reaches device `d`. A television
/// takes a volume level first, then a mute setting, then a bare value as
/// power; a zone, an irrigation host and a relay board take a bare value
/// only.
pub open spec fn routes_to(d: Device, req: RequestedState, r: Result<Command, ApplyError>) -> bool {
    match d.kind {
        DeviceType::TV => match req {
            RequestedState::Flag(b) => r == Ok::<Command, ApplyError>(
                Command::Tv(TvOperation::Power(SetPowerState(b))),
            ),
            RequestedState::Fields { volume_level, mute } => match (volume_level, mute) {
                (Some(v), _) => r == Ok::<Command, ApplyError>(
                    Command::Tv(TvOperation::Volume(SetVolState(v))),
                ),
                (None, Some(m)) => r == Ok::<Command, ApplyError>(
                    Command::Tv(TvOperation::Mute(SetMuteState(m))),
                ),
                (None, None) => r == Err::<Command, ApplyError>(ApplyError::Deserialization),
            },
        },
        _ => match req {
            RequestedState::Fields { .. } => r == Err::<Command, ApplyError>(
                ApplyError::Deserialization,
            ),
            RequestedState::Flag(b) => match d.kind {
                DeviceType::SPRINKLER => is_http(
                    r,
                    HttpMethod::Put,
                    zone_url(d.ip@),
                    zone_toggle_body(zone_number(d.sw_version@), b),
                ),
                DeviceType::SqlSprinklerHost => is_http(
                    r,
                    HttpMethod::Put,
                    system_state_url(d.ip@),
                    system_toggle_body(b),
                ),
                _ => is_http(
                    r,
                    HttpMethod::Get,
                    api_url_with_param(d, relay_endpoint(b), d.guid@),
                    Seq::<char>::empty(),
                ),
            },
        },
    }
}

/// The zero-based zone number of a zone device's software version.
pub fn zone_index_of(sw_version: &str) -> (r: i128)
    ensures
        r == zone_number(sw_version@),
{
    match parse_i64(sw_version) {
        Some(v) => v as i128 - 1,
        None => 0,
    }
}

/// Chooses what to send so that `device` takes the state `requested`.
pub fn plan_command(device: &Device, requested: &RequestedState) -> (r: Result<
    Command,
    ApplyError,
>)
    ensures
        routes_to(*device, *requested, r),
{
    match device.kind {
        DeviceType::TV => match *requested {
            RequestedState::Flag(b) => Ok(Command::Tv(TvOperation::Power(SetPowerState(b)))),
            RequestedState::Fields { volume_level, mute } => match (volume_level, mute) {
                (Some(v), _) => Ok(Command::Tv(TvOperation::Volume(SetVolState(v)))),
                (None, Some(m)) => Ok(Command::Tv(TvOperation::Mute(SetMuteState(m)))),
                (None, None) => Err(ApplyError::Deserialization),
            },
        },
        _ => match *requested {
            RequestedState::Fields { .. } => Err(ApplyError::Deserialization),
            RequestedState::Flag(b) => match device.kind {
                DeviceType::SPRINKLER => {
                    let index = zone_index_of(device.sw_version.as_str());
                    Ok(Command::Http(set_zone(device.ip.as_str(), b, index)))
                },
                DeviceType::SqlSprinklerHost => {
                    Ok(Command::Http(set_system(device.ip.as_str(), b)))
                },
                _ => {
                    let endpoint = if b {
                        String::from_str("on")
                    } else {
                        String::from_str("off")
                    };
                    let url = device.get_api_url_with_param(endpoint, device.guid.clone());
                    Ok(Command::Http(HttpRequest { method: HttpMethod::Get, url, body: String::new() }))
                },
            },
        },
    }
}

/// The live state of a television as its device holds it; the off state
/// when it holds none.
pub open spec fn current_tv_state(d: Device) -> TvState {
    match d.last_state {
        DeviceState::Tv(t) => t,
        _ => spec_tv_state_off(),
    }
}

/// The state to save to the catalog once a command has succeeded. A device
/// switched on or off stores the requested value; a television stores its
/// current state with the commanded field changed (`volume`, `muted` or
/// `on`). A zone is derived from its host and never stored; a request that
/// could not be carried out stores nothing.
pub open spec fn persisted_state(d: Device, req: RequestedState) -> Option<DeviceState> {
    let t = current_tv_state(d);
    match (d.kind, req) {
        (DeviceType::SPRINKLER, _) => None,
        (DeviceType::TV, RequestedState::Flag(b)) => Some(DeviceState::Tv(TvState { on: b, ..t })),
        (DeviceType::TV, RequestedState::Fields { volume_level: Some(v), .. }) => Some(
            DeviceState::Tv(TvState { volume: v, ..t }),
        ),
        (DeviceType::TV, RequestedState::Fields { volume_level: None, mute: Some(m) }) => Some(
            DeviceState::Tv(TvState { muted: m, ..t }),
        ),
        (DeviceType::TV, RequestedState::Fields { volume_level: None, mute: None }) => None,
        (_, RequestedState::Flag(b)) => Some(DeviceState::Flag(b)),
        (_, RequestedState::Fields { .. }) => None,
    }
}

/// Gives the state to save to the catalog once the command for `requested`
/// has succeeded on `device`.
pub fn state_to_persist(device: &Device, requested: &RequestedState) -> (r: Option<DeviceState>)
    ensures
        r == persisted_state(*device, *requested),
{
    let t = match &device.last_state {
        DeviceState::Tv(t) => *t,
        _ => TvState::default(),
    };
    match (device.kind, *requested) {
        (DeviceType::SPRINKLER, _) => None,
        (DeviceType::TV, RequestedState::Flag(b)) => Some(DeviceState::Tv(TvState { on: b, ..t })),
        (DeviceType::TV, RequestedState::Fields { volume_level: Some(v), .. }) => Some(
            DeviceState::Tv(TvState { volume: v, ..t }),
        ),
        (DeviceType::TV, RequestedState::Fields { volume_level: None, mute: Some(m) }) => Some(
            DeviceState::Tv(TvState { muted: m, ..t }),
        ),
        (DeviceType::TV, RequestedState::Fields { volume_level: None, mute: None }) => None,
        (_, RequestedState::Flag(b)) => Some(DeviceState::Flag(b)),
        (_, RequestedState::Fields { .. }) => None,
    }
}

/// A command that was carried out always leaves a state to store for a
/// device that the catalog holds: every kind but a zone.
pub proof fn lemma_catalog_device_state_is_stored(
    d: Device,
    req: RequestedState,
    r: Result<Command, ApplyError>,
)
    requires
        d.kind != DeviceType::SPRINKLER,
        routes_to(d, req, r),
        r is Ok,
    ensures
        persisted_state(d, req) is Some,
{
}

/// A relay-driven device is switched by a `GET` of
/// `http://<address>/on?param=<id>`, or `.../off?param=<id>`.
pub proof fn lemma_relay_command(d: Device, on: bool, r: Result<Command, ApplyError>)
    requires
        d.kind == DeviceType::LIGHT || d.kind == DeviceType::SWITCH || d.kind == DeviceType::GARAGE
            || d.kind == DeviceType::ROUTER,
        routes_to(d, RequestedState::Flag(on), r),
    ensures
        r matches Ok(Command::Http(h)),
        r->Ok_0->Http_0.method == HttpMethod::Get,
        r->Ok_0->Http_0.url@ == "http://"@ + d.ip@ + "/"@ + (if on {
            "on"@
        } else {
            "off"@
        }) + "?param="@ + d.guid@,
        r->Ok_0->Http_0.body@.len() == 0,
{
}

/// Switching an irrigation host is a `PUT` of its system state,
/// `http://<address>:3030/system/state`, with body
/// `{"system_enabled":<state>}`.
pub proof fn lemma_host_command(d: Device, on: bool, r: Result<Command, ApplyError>)
    requires
        d.kind == DeviceType::SqlSprinklerHost,
        routes_to(d, RequestedState::Flag(on), r),
    ensures
        r matches Ok(Command::Http(h)),
        r->Ok_0->Http_0.method == HttpMethod::Put,
        r->Ok_0->Http_0.url@ == "http://"@ + d.ip@ + ":3030/system/state"@,
        r->Ok_0->Http_0.body@ == "{\"system_enabled\":"@ + (if on {
            "true"@
        } else {
            "false"@
        }) + "}"@,
{
}

} // verus!
