use pimation::attributes::{
    garage_attribute, on_off_attribute, tv_attribute, Attributes, GarageAttribute, OnOffAttribute,
    TvAttribute,
};
use pimation::device::{empty_device, Device, DeviceState};
use pimation::device_type::DeviceType;
use pimation::hardware_type::HardwareType;
use pimation::traits::{on_off_traits, open_close_traits, reboot_traits, tv_traits};
use pimation::tv::TvState;

fn device(kind: DeviceType, hardware: HardwareType, name: &str) -> Device {
    Device {
        ip: "10.0.0.7".to_string(),
        guid: "dev-1".to_string(),
        kind,
        hardware,
        last_state: DeviceState::Flag(false),
        last_seen: String::new(),
        sw_version: "3".to_string(),
        useruuid: String::new(),
        name: name.to_string(),
        nicknames: vec!["Nick".to_string()],
    }
}

#[test]
fn router_scenario_projects_to_router_schema() {
    let mut d = device(DeviceType::ROUTER, HardwareType::OTHER, "Basement Router");
    d.guid = "rtr1".to_string();
    d.nicknames = vec!["Basement Router".to_string()];
    let g = d.to_google_device();
    assert_eq!(g.device_type, "action.devices.types.ROUTER");
    assert_eq!(g.traits, vec!["action.devices.traits.Reboot"]);
    assert_eq!(g.name.name, "Basement Router");
    assert_eq!(g.name.nicknames, vec!["Basement Router".to_string()]);
    assert_eq!(
        g.attributes,
        Attributes::OnOff(OnOffAttribute { command_only_on_off: false, query_only_on_off: false })
    );
}

#[test]
fn projection_is_repeatable() {
    let d = device(DeviceType::TV, HardwareType::LG, "Upstairs TV");
    let a = d.to_google_device();
    let b = d.to_google_device();
    assert_eq!(a, b);
    assert_eq!(format!("{:?}", a), format!("{:?}", b));
}

#[test]
fn type_names_per_kind() {
    let cases = [
        (DeviceType::LIGHT, "action.devices.types.LIGHT"),
        (DeviceType::SWITCH, "action.devices.types.SWITCH"),
        (DeviceType::SqlSprinklerHost, "action.devices.types.SWITCH"),
        (DeviceType::GARAGE, "action.devices.types.GARAGE"),
        (DeviceType::SPRINKLER, "action.devices.types.SPRINKLER"),
        (DeviceType::ROUTER, "action.devices.types.ROUTER"),
        (DeviceType::TV, "action.devices.types.TV"),
    ];
    for (kind, name) in cases {
        assert_eq!(device(kind, HardwareType::PI, "x").get_google_device_type(), name);
    }
}

#[test]
fn traits_per_kind() {
    assert_eq!(
        device(DeviceType::GARAGE, HardwareType::ARDUINO, "g").get_google_device_traits(),
        vec!["action.devices.traits.OpenClose"]
    );
    assert_eq!(
        device(DeviceType::TV, HardwareType::LG, "t").get_google_device_traits(),
        vec!["action.devices.traits.OnOff", "action.devices.traits.Volume"]
    );
    assert_eq!(
        device(DeviceType::LIGHT, HardwareType::ARDUINO, "l").get_google_device_traits(),
        vec!["action.devices.traits.OnOff"]
    );
    assert_eq!(tv_traits(), vec!["action.devices.traits.OnOff", "action.devices.traits.Volume"]);
    assert_eq!(open_close_traits(), vec!["action.devices.traits.OpenClose"]);
    assert_eq!(on_off_traits(), vec!["action.devices.traits.OnOff"]);
    assert_eq!(reboot_traits(), vec!["action.devices.traits.Reboot"]);
}

#[test]
fn hardware_models() {
    let cases = [
        (HardwareType::ARDUINO, "Arduino"),
        (HardwareType::PI, "Raspberry Pi"),
        (HardwareType::OTHER, "Other"),
        (HardwareType::LG, "LG"),
    ];
    for (hw, model) in cases {
        assert_eq!(device(DeviceType::LIGHT, hw, "x").get_google_device_hardware(), model);
    }
}

#[test]
fn garage_and_tv_attributes() {
    assert_eq!(
        device(DeviceType::GARAGE, HardwareType::ARDUINO, "g").get_attributes(),
        Attributes::Garage(GarageAttribute { discrete_only_open_close: true })
    );
    let mut tv = device(DeviceType::TV, HardwareType::LG, "t");
    tv.last_state = DeviceState::Tv(TvState { on: true, muted: false, volume: 12, volume_max: 100 });
    let expected = TvAttribute {
        command_only_on_off: false,
        query_only_on_off: false,
        volume_max_level: 100,
        volume_can_mute_and_unmute: true,
        command_only_volume: false,
        volume_default_percentage: 10,
    };
    assert_eq!(tv.get_attributes(), Attributes::Tv(expected));
    tv.last_state = DeviceState::Flag(true);
    assert_eq!(tv.get_attributes(), tv_attribute(0));
    assert_eq!(garage_attribute(), Attributes::Garage(GarageAttribute::new()));
    assert_eq!(on_off_attribute(), Attributes::OnOff(OnOffAttribute::new()));
}

#[test]
fn name_falls_back_to_identifier() {
    let d = device(DeviceType::LIGHT, HardwareType::ARDUINO, "");
    assert_eq!(d.get_name(), "dev-1");
    let g = d.to_google_device();
    assert_eq!(g.name.name, "dev-1");
    assert_eq!(g.name.default_names, vec!["dev-1".to_string()]);
    let named = device(DeviceType::LIGHT, HardwareType::ARDUINO, "Porch");
    assert_eq!(named.get_name(), "Porch");
}

#[test]
fn default_and_empty_devices() {
    let d = Device::default();
    assert_eq!(d.kind, DeviceType::SWITCH);
    assert_eq!(d.hardware, HardwareType::OTHER);
    assert_eq!(d.sw_version, "0");
    assert_eq!(d.nicknames, vec![String::new()]);
    assert_eq!(d.last_state, DeviceState::Flag(false));
    let e = empty_device();
    assert_eq!(e.kind, DeviceType::LIGHT);
    assert_eq!(e.hardware, HardwareType::ARDUINO);
    assert!(e.guid.is_empty() && e.ip.is_empty() && e.nicknames.is_empty());
}

#[test]
fn update_replaces_state_address_and_version() {
    let d = device(DeviceType::SWITCH, HardwareType::ARDUINO, "Fan");
    let u = d.clone().updated(DeviceState::Text("1".to_string()), "10.0.0.9".to_string(), "7".to_string());
    assert_eq!(u.last_state, DeviceState::Text("1".to_string()));
    assert_eq!(u.ip, "10.0.0.9");
    assert_eq!(u.sw_version, "7");
    assert_eq!(u.guid, d.guid);
    assert_eq!(u.name, d.name);
}

#[test]
fn listing_projection_keeps_order() {
    let devices = vec![
        device(DeviceType::LIGHT, HardwareType::ARDUINO, "Porch"),
        device(DeviceType::GARAGE, HardwareType::ARDUINO, "Garage"),
    ];
    let out = pimation::listing::google_devices(&devices);
    assert_eq!(out.len(), 2);
    assert_eq!(out[0], devices[0].to_google_device());
    assert_eq!(out[1].device_type, "action.devices.types.GARAGE");
    assert!(pimation::listing::google_devices(&vec![]).is_empty());
}

#[test]
fn control_urls() {
    let d = device(DeviceType::LIGHT, HardwareType::ARDUINO, "l");
    assert_eq!(
        d.get_api_url_with_param("on".to_string(), "dev-1".to_string()),
        "http://10.0.0.7/on?param=dev-1"
    );
    let other = device(DeviceType::LIGHT, HardwareType::PI, "l");
    assert_eq!(
        other.get_api_url_with_param("off".to_string(), "dev-1".to_string()),
        "http://10.0.0.7/off?param=dev-1"
    );
    let host = device(DeviceType::SqlSprinklerHost, HardwareType::PI, "h");
    assert_eq!(
        host.get_api_url_with_param("on".to_string(), "x".to_string()),
        "https://api.peasenet.com/sprinkler/systems/dev-1/state"
    );
}
