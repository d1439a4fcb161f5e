//! The attribute sets that accompany a device's traits on the smart-home
//! platform.

use vstd::prelude::*;

verus! {

/// Attributes of garage doors.
#[derive(Debug, Clone, Copy, PartialEq, Eq, Structural)]
pub struct GarageAttribute {
    pub discrete_only_open_close: bool,
}

/// Attributes of on/off devices (switches, outlets, some lights).
#[derive(Debug, Clone, Copy, PartialEq, Eq, Structural)]
pub struct OnOffAttribute {
    pub command_only_on_off: bool,
    pub query_only_on_off: bool,
}

/// Attributes of televisions.
#[derive(Debug, Clone, Copy, PartialEq, Eq, Structural)]
pub struct TvAttribute {
    pub command_only_on_off: bool,
    pub query_only_on_off: bool,
    pub volume_max_level: u8,
    pub volume_can_mute_and_unmute: bool,
    pub command_only_volume: bool,
    pub volume_default_percentage: u8,
}

/// The attribute set of one device.
#[derive(Debug, Clone, Copy, PartialEq, Eq, Structural)]
pub enum Attributes {
    Garage(GarageAttribute),
    OnOff(OnOffAttribute),
    Tv(TvAttribute),
}

/// Volume percentage a television starts from.
pub const DEFAULT_VOLUME_PERCENTAGE: u8 = 10;

impl GarageAttribute {
    /// The garage attributes: a door only opens or closes fully.
    pub fn new() -> (r: GarageAttribute)
        ensures
            r == (GarageAttribute { discrete_only_open_close: true }),
    {
        GarageAttribute { discrete_only_open_close: true }
    }
}

impl OnOffAttribute {
    /// The on/off attributes: both commanded and queried.
    pub fn new() -> (r: OnOffAttribute)
        ensures
            r == (OnOffAttribute { command_only_on_off: false, query_only_on_off: false }),
    {
        OnOffAttribute { command_only_on_off: false, query_only_on_off: false }
    }
}

/// The attributes of a television whose volume goes up to `volume_max`.
pub open spec fn spec_tv_attribute(volume_max: u8) -> TvAttribute {
    TvAttribute {
        command_only_on_off: false,
        query_only_on_off: false,
        volume_max_level: volume_max,
        volume_can_mute_and_unmute: true,
        command_only_volume: false,
        volume_default_percentage: DEFAULT_VOLUME_PERCENTAGE,
    }
}

/// Gets attributes for garage doors.
pub fn garage_attribute() -> (r: Attributes)
    ensures
        r == Attributes::Garage(GarageAttribute { discrete_only_open_close: true }),
{
    Attributes::Garage(GarageAttribute::new())
}

/// Gets the attributes for on/off devices.
pub fn on_off_attribute() -> (r: Attributes)
    ensures
        r == Attributes::OnOff(
            OnOffAttribute { command_only_on_off: false, query_only_on_off: false },
        ),
{
    Attributes::OnOff(OnOffAttribute::new())
}

/// Gets the attributes of a television whose volume goes up to `volume_max`.
pub fn tv_attribute(volume_max: u8) -> (r: Attributes)
    ensures
        r == Attributes::Tv(spec_tv_attribute(volume_max)),
{
    Attributes::Tv(
        TvAttribute {
            command_only_on_off: false,
            query_only_on_off: false,
            volume_max_level: volume_max,
            volume_can_mute_and_unmute: true,
            command_only_volume: false,
            volume_default_percentage: DEFAULT_VOLUME_PERCENTAGE,
        },
    )
}

} // verus!
