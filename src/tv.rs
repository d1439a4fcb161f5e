//! The television: its live state and the operations sent to it.

use vstd::prelude::*;

use crate::device::{Device, DeviceState};
use crate::device_type::DeviceType;
use crate::text::{bool_str, bool_text, int_text, integer_to_text};

verus! {

/// The state of a television as the gateway reports it.
#[derive(Debug, Clone, Copy, PartialEq, Eq, Structural)]
pub struct TvState {
    pub on: bool,
    pub muted: bool,
    pub volume: u8,
    pub volume_max: u8,
}

/// The state of a television that is off or could not be read.
pub open spec fn spec_tv_state_off() -> TvState {
    TvState { on: false, muted: false, volume: 0, volume_max: 0 }
}

impl Default for TvState {
    fn default() -> (r: TvState)
        ensures
            r == spec_tv_state_off(),
    {
        TvState { on: false, muted: false, volume: 0, volume_max: 0 }
    }
}

/// What the television's control utility reports of its volume.
#[derive(Debug, Clone, PartialEq, Eq)]
pub struct VolState {
    pub muted: bool,
    pub return_value: bool,
    pub scenario: String,
    pub volume: u8,
    pub volume_max: u8,
}

/// Sets the television's volume to the given level.
#[derive(Debug, Clone, Copy, PartialEq, Eq, Structural)]
pub struct SetVolState(pub u8);

/// Mutes (`true`) or unmutes the television.
#[derive(Debug, Clone, Copy, PartialEq, Eq, Structural)]
pub struct SetMuteState(pub bool);

/// Turns the television on (`true`) or off.
#[derive(Debug, Clone, Copy, PartialEq, Eq, Structural)]
pub struct SetPowerState(pub bool);

/// One operation on the television.
#[derive(Debug, Clone, Copy, PartialEq, Eq, Structural)]
pub enum TvOperation {
    Volume(SetVolState),
    Mute(SetMuteState),
    Power(SetPowerState),
}

/// The live state of a television from a volume reading: on, with the
/// reading's values, when there is one; off otherwise.
pub open spec fn spec_tv_state_from(reading: Option<VolState>) -> TvState {
    match reading {
        Some(v) => TvState { on: true, muted: v.muted, volume: v.volume, volume_max: v.volume_max },
        None => spec_tv_state_off(),
    }
}

/// The live state of a television from its volume reading, `None` when the
/// reading failed.
pub fn get_tv_state(reading: Option<&VolState>) -> (r: TvState)
    ensures
        r == spec_tv_state_from(
            match reading {
                Some(v) => Some(*v),
                None => None,
            },
        ),
{
    match reading {
        Some(v) => TvState { on: true, muted: v.muted, volume: v.volume, volume_max: v.volume_max },
        None => TvState::default(),
    }
}

/// A device with the live state of a television stored in it, when it is
/// one: the state from its volume reading when it is online (`None` when the
/// reading failed), the off state when it is offline. Any other device is
/// returned as it is.
pub fn parse_device(dev: Device, online: bool, reading: Option<&VolState>) -> (r: Device)
    ensures
        dev.kind != DeviceType::TV ==> r == dev,
        dev.kind == DeviceType::TV ==> r == (Device {
            last_state: DeviceState::Tv(
                if online {
                    spec_tv_state_from(
                        match reading {
                            Some(v) => Some(*v),
                            None => None,
                        },
                    )
                } else {
                    spec_tv_state_off()
                },
            ),
            ..dev
        }),
{
    if dev.kind != DeviceType::TV {
        return dev;
    }
    let state = if online {
        get_tv_state(reading)
    } else {
        TvState::default()
    };
    Device { last_state: DeviceState::Tv(state), ..dev }
}

/// The arguments given to the television's control utility for an
/// operation: `set vol <level>`, `set mute <true|false>` or
/// `set power <true|false>`.
pub open spec fn tv_args(op: TvOperation) -> Seq<Seq<char>> {
    match op {
        TvOperation::Volume(v) => seq!["set"@, "vol"@, int_text(v.0 as int)],
        TvOperation::Mute(m) => seq!["set"@, "mute"@, bool_text(m.0)],
        TvOperation::Power(p) => seq!["set"@, "power"@, bool_text(p.0)],
    }
}

/// Builds the arguments of the television's control utility for an
/// operation.
pub fn tv_command_args(op: TvOperation) -> (r: Vec<String>)
    ensures
        r.deep_view() == tv_args(op),
{
    let (what, value) = match op {
        TvOperation::Volume(v) => (String::from_str("vol"), integer_to_text(v.0 as i128)),
        TvOperation::Mute(m) => (String::from_str("mute"), String::from_str(bool_str(m.0))),
        TvOperation::Power(p) => (String::from_str("power"), String::from_str(bool_str(p.0))),
    };
    let r = vec![String::from_str("set"), what, value];
    assert(r.deep_view() =~= tv_args(op));
    r
}

} // verus!
