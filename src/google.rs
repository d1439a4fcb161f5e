//! The device record that the smart-home platform consumes.

use vstd::prelude::*;

use crate::attributes::Attributes;

verus! {

/// The names under which the platform knows a device.
#[derive(Debug, Clone, PartialEq, Eq)]
pub struct DeviceName {
    pub default_names: Vec<String>,
    pub name: String,
    pub nicknames: Vec<String>,
}

/// What the platform is told of a device's make.
#[derive(Debug, Clone, PartialEq, Eq)]
pub struct DeviceInfo {
    pub manufacturer: &'static str,
    pub model: &'static str,
    pub hw_version: &'static str,
    pub sw_version: String,
}

/// A device as the smart-home platform describes it.
#[derive(Debug, Clone, PartialEq, Eq)]
pub struct GoogleDevice {
    pub id: String,
    pub device_type: &'static str,
    pub traits: Vec<&'static str>,
    pub name: DeviceName,
    pub attributes: Attributes,
    pub device_info: DeviceInfo,
    pub will_report_state: bool,
}

/// The content of a `GoogleDevice`, with every text as a sequence of
/// characters.
pub struct GoogleDeviceView {
    pub id: Seq<char>,
    pub device_type: Seq<char>,
    pub traits: Seq<Seq<char>>,
    pub default_names: Seq<Seq<char>>,
    pub name: Seq<char>,
    pub nicknames: Seq<Seq<char>>,
    pub attributes: Attributes,
    pub manufacturer: Seq<char>,
    pub model: Seq<char>,
    pub hw_version: Seq<char>,
    pub sw_version: Seq<char>,
    pub will_report_state: bool,
}

impl View for GoogleDevice {
    type V = GoogleDeviceView;

    open spec fn view(&self) -> GoogleDeviceView {
        GoogleDeviceView {
            id: self.id@,
            device_type: self.device_type@,
            traits: self.traits.deep_view(),
            default_names: self.name.default_names.deep_view(),
            name: self.name.name@,
            nicknames: self.name.nicknames.deep_view(),
            attributes: self.attributes,
            manufacturer: self.device_info.manufacturer@,
            model: self.device_info.model@,
            hw_version: self.device_info.hw_version@,
            sw_version: self.device_info.sw_version@,
            will_report_state: self.will_report_state,
        }
    }
}

} // verus!
