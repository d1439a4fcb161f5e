//! The canonical device and its projection onto the smart-home platform.

use vstd::prelude::*;

use crate::attributes::{
    garage_attribute, on_off_attribute, spec_tv_attribute, tv_attribute, Attributes,
    GarageAttribute, OnOffAttribute,
};
use crate::device_type::DeviceType;
use crate::google::{DeviceInfo, DeviceName, GoogleDevice, GoogleDeviceView};
use crate::hardware_type::HardwareType;
use crate::text::copy_strings;
use crate::traits::{
    on_off_traits, open_close_traits, reboot_traits, spec_on_off_traits, spec_open_close_traits,
    spec_reboot_traits, spec_tv_traits, tv_traits,
};
use crate::tv::TvState;

verus! {

/// The last known state of a device.
#[derive(Debug, Clone, PartialEq, Eq)]
pub enum DeviceState {
    /// On or off.
    Flag(bool),
    /// A state reported as text by the device itself.
    Text(String),
    /// The state of one irrigation zone.
    Zone { on: bool, id: i8, index: i8 },
    /// The live state of a television.
    Tv(TvState),
    /// Any other stored state, kept as its JSON text.
    Other(String),
}

/// A device that can be automated or remotely controlled.
#[derive(Debug, Clone, PartialEq, Eq)]
pub struct Device {
    /// The network address of the device (used by directly reachable hardware).
    pub ip: String,
    /// The identifier of the device.
    pub guid: String,
    /// What kind the device is.
    pub kind: DeviceType,
    /// The hardware the device runs on.
    pub hardware: HardwareType,
    /// The last state of the device.
    pub last_state: DeviceState,
    /// When the device was last heard from.
    pub last_seen: String,
    /// The software version on the device; for a zone, the zone's number.
    pub sw_version: String,
    /// The user the device belongs to.
    pub useruuid: String,
    /// The display name of the device.
    pub name: String,
    /// Other names for the device.
    pub nicknames: Vec<String>,
}

/// The device that stands for "nothing found".
pub open spec fn is_default_device(d: Device) -> bool {
    &&& d.ip@ == Seq::<char>::empty()
    &&& d.guid@ == Seq::<char>::empty()
    &&& d.kind == DeviceType::SWITCH
    &&& d.hardware == HardwareType::OTHER
    &&& d.last_state == DeviceState::Flag(false)
    &&& d.last_seen@ == Seq::<char>::empty()
    &&& d.sw_version@ == "0"@
    &&& d.useruuid@ == Seq::<char>::empty()
    &&& d.name@ == Seq::<char>::empty()
    &&& d.nicknames.deep_view() == seq![Seq::<char>::empty()]
}

impl Default for Device {
    fn default() -> (r: Device)
        ensures
            is_default_device(r),
    {
        let nicknames = vec![String::new()];
        assert(nicknames.deep_view() =~= seq![Seq::<char>::empty()]);
        Device {
            ip: String::new(),
            guid: String::new(),
            kind: DeviceType::SWITCH,
            hardware: HardwareType::OTHER,
            last_state: DeviceState::Flag(false),
            last_seen: String::new(),
            sw_version: String::from_str("0"),
            useruuid: String::new(),
            name: String::new(),
            nicknames,
        }
    }
}

/// A relay-driven switch as an early catalog stored it.
#[derive(Debug, Clone, PartialEq, Eq)]
pub struct SwitchDevice {
    pub ip: String,
    pub guid: String,
    pub kind: DeviceType,
    pub hardware: HardwareType,
    pub last_state: bool,
    pub last_seen: String,
    pub sw_version: i64,
    pub useruuid: String,
}

/// A blank light on a relay board, with every text empty.
pub open spec fn is_empty_device(d: Device) -> bool {
    &&& d.ip@ == Seq::<char>::empty()
    &&& d.guid@ == Seq::<char>::empty()
    &&& d.kind == DeviceType::LIGHT
    &&& d.hardware == HardwareType::ARDUINO
    &&& d.last_state == DeviceState::Flag(false)
    &&& d.last_seen@ == Seq::<char>::empty()
    &&& d.sw_version@ == "0"@
    &&& d.useruuid@ == Seq::<char>::empty()
    &&& d.name@ == Seq::<char>::empty()
    &&& d.nicknames@.len() == 0
}

/// A blank light on a relay board, with every text empty.
pub fn empty_device() -> (r: Device)
    ensures
        is_empty_device(r),
{
    Device {
        ip: String::new(),
        guid: String::new(),
        kind: DeviceType::LIGHT,
        hardware: HardwareType::ARDUINO,
        last_state: DeviceState::Flag(false),
        last_seen: String::new(),
        sw_version: String::from_str("0"),
        useruuid: String::new(),
        name: String::new(),
        nicknames: Vec::new(),
    }
}

/// The platform's type name for a kind of device.
pub open spec fn google_type(kind: DeviceType) -> Seq<char> {
    match kind {
        DeviceType::LIGHT => "action.devices.types.LIGHT"@,
        DeviceType::SWITCH | DeviceType::SqlSprinklerHost => "action.devices.types.SWITCH"@,
        DeviceType::GARAGE => "action.devices.types.GARAGE"@,
        DeviceType::SPRINKLER => "action.devices.types.SPRINKLER"@,
        DeviceType::ROUTER => "action.devices.types.ROUTER"@,
        DeviceType::TV => "action.devices.types.TV"@,
    }
}

/// The platform traits of a kind of device.
pub open spec fn google_traits(kind: DeviceType) -> Seq<Seq<char>> {
    match kind {
        DeviceType::GARAGE => spec_open_close_traits(),
        DeviceType::ROUTER => spec_reboot_traits(),
        DeviceType::TV => spec_tv_traits(),
        _ => spec_on_off_traits(),
    }
}

/// The model name shown for a hardware platform.
pub open spec fn google_model(hardware: HardwareType) -> Seq<char> {
    match hardware {
        HardwareType::ARDUINO => "Arduino"@,
        HardwareType::PI => "Raspberry Pi"@,
        HardwareType::OTHER => "Other"@,
        HardwareType::LG => "LG"@,
    }
}

/// The highest volume a state reports: that of a television's live state, 0
/// for any other state.
pub open spec fn volume_max_of(state: DeviceState) -> u8 {
    match state {
        DeviceState::Tv(t) => t.volume_max,
        _ => 0,
    }
}

/// The attribute set of a device.
pub open spec fn google_attributes(d: Device) -> Attributes {
    match d.kind {
        DeviceType::GARAGE => Attributes::Garage(GarageAttribute { discrete_only_open_close: true }),
        DeviceType::TV => Attributes::Tv(spec_tv_attribute(volume_max_of(d.last_state))),
        _ => Attributes::OnOff(
            OnOffAttribute { command_only_on_off: false, query_only_on_off: false },
        ),
    }
}

/// The name a device is shown under: its display name, or its identifier
/// when it has none.
pub open spec fn display_name(d: Device) -> Seq<char> {
    if d.name@.len() == 0 {
        d.guid@
    } else {
        d.name@
    }
}

/// The device as the smart-home platform describes it.
pub open spec fn projection(d: Device) -> GoogleDeviceView {
    GoogleDeviceView {
        id: d.guid@,
        device_type: google_type(d.kind),
        traits: google_traits(d.kind),
        default_names: seq![display_name(d)],
        name: display_name(d),
        nicknames: d.nicknames.deep_view(),
        attributes: google_attributes(d),
        manufacturer: "GTECH"@,
        model: google_model(d.hardware),
        hw_version: "1.0"@,
        sw_version: d.sw_version@,
        will_report_state: true,
    }
}

/// The base URL of a device's control endpoint, `http://<ip>/<endpoint>`.
pub open spec fn api_url(d: Device, endpoint: Seq<char>) -> Seq<char> {
    "http://"@ + d.ip@ + "/"@ + endpoint
}

/// The URL that sets a device's state: an irrigation host's state endpoint
/// on the irrigation service, otherwise the control endpoint with `param` as
/// its query parameter.
pub open spec fn api_url_with_param(d: Device, endpoint: Seq<char>, param: Seq<char>) -> Seq<
    char,
> {
    match d.kind {
        DeviceType::SqlSprinklerHost => "https://api.peasenet.com/sprinkler/systems/"@ + d.guid@
            + "/state"@,
        _ => api_url(d, endpoint) + "?param="@ + param,
    }
}

impl Device {
    /// Gets the API URL of the device, with the endpoint.
    fn get_api_url(&self, endpoint: &str) -> (r: String)
        ensures
            r@ == api_url(*self, endpoint@),
    {
        let mut r = String::from_str("http://");
        r.append(self.ip.as_str());
        r.append("/");
        r.append(endpoint);
        r
    }

    /// The device with the state, address and software version that an update
    /// reports; the catalog then stores it.
    pub fn updated(self, state: DeviceState, ip: String, sw_version: String) -> (r: Device)
        ensures
            r == (Device { last_state: state, ip, sw_version, ..self }),
    {
        Device { last_state: state, ip, sw_version, ..self }
    }

    /// Gets the attributes of this device.
    pub fn get_attributes(&self) -> (r: Attributes)
        ensures
            r == google_attributes(*self),
    {
        match self.kind {
            DeviceType::GARAGE => garage_attribute(),
            DeviceType::TV => {
                let volume_max = match &self.last_state {
                    DeviceState::Tv(t) => t.volume_max,
                    _ => TvState::default().volume_max,
                };
                tv_attribute(volume_max)
            },
            _ => on_off_attribute(),
        }
    }

    /// Gets a URL for turning the device on or off: `endpoint` is `on` or
    /// `off` and `param` the device's identifier.
    pub fn get_api_url_with_param(&self, endpoint: String, param: String) -> (r: String)
        ensures
            r@ == api_url_with_param(*self, endpoint@, param@),
    {
        match self.kind {
            DeviceType::SqlSprinklerHost => {
                let mut r = String::from_str("https://api.peasenet.com/sprinkler/systems/");
                r.append(self.guid.as_str());
                r.append("/state");
                r
            },
            _ => {
                let mut r = self.get_api_url(endpoint.as_str());
                r.append("?param=");
                r.append(param.as_str());
                r
            },
        }
    }

    /// Gets the device type that the smart-home platform recognizes.
    pub fn get_google_device_type(&self) -> (r: &'static str)
        ensures
            r@ == google_type(self.kind),
    {
        match self.kind {
            DeviceType::LIGHT => "action.devices.types.LIGHT",
            DeviceType::SWITCH | DeviceType::SqlSprinklerHost => "action.devices.types.SWITCH",
            DeviceType::GARAGE => "action.devices.types.GARAGE",
            DeviceType::SPRINKLER => "action.devices.types.SPRINKLER",
            DeviceType::ROUTER => "action.devices.types.ROUTER",
            DeviceType::TV => "action.devices.types.TV",
        }
    }

    /// Gets the smart-home traits of this device.
    pub fn get_google_device_traits(&self) -> (r: Vec<&'static str>)
        ensures
            r.deep_view() == google_traits(self.kind),
    {
        match self.kind {
            DeviceType::GARAGE => open_close_traits(),
            DeviceType::ROUTER => reboot_traits(),
            DeviceType::TV => tv_traits(),
            _ => on_off_traits(),
        }
    }

    /// Gets the model name of the device's hardware.
    pub fn get_google_device_hardware(&self) -> (r: &'static str)
        ensures
            r@ == google_model(self.hardware),
    {
        match self.hardware {
            HardwareType::ARDUINO => "Arduino",
            HardwareType::PI => "Raspberry Pi",
            HardwareType::OTHER => "Other",
            HardwareType::LG => "LG",
        }
    }

    /// Gets the name of this device: its display name, or its identifier
    /// when it has none.
    pub fn get_name(&self) -> (r: &String)
        ensures
            r@ == display_name(*self),
    {
        if self.name.as_str().is_empty() {
            &self.guid
        } else {
            &self.name
        }
    }

    /// Describes this device as the smart-home platform expects it.
    pub fn to_google_device(&self) -> (r: GoogleDevice)
        ensures
            r@ == projection(*self),
    {
        let default_names = vec![self.get_name().clone()];
        let r = GoogleDevice {
            id: self.guid.clone(),
            device_type: self.get_google_device_type(),
            traits: self.get_google_device_traits(),
            name: DeviceName {
                default_names,
                name: self.get_name().clone(),
                nicknames: copy_strings(&self.nicknames),
            },
            attributes: self.get_attributes(),
            device_info: DeviceInfo {
                manufacturer: "GTECH",
                model: self.get_google_device_hardware(),
                hw_version: "1.0",
                sw_version: self.sw_version.clone(),
            },
            will_report_state: true,
        };
        assert(r.name.default_names.deep_view() =~= seq![display_name(*self)]);
        r
    }
}

/// The projection depends on the device alone: two projections of equal
/// devices describe them identically.
pub proof fn lemma_projection_deterministic(d1: Device, d2: Device, g1: GoogleDevice, g2: GoogleDevice)
    requires
        d1 == d2,
        g1@ == projection(d1),
        g2@ == projection(d2),
    ensures
        g1@ == g2@,
{
}

} // verus!
