use pimation::attributes::{Attributes, OnOffAttribute};
use pimation::device::{Device, DeviceState};
use pimation::device_type;
use pimation::hardware_type;
use pimation::resolver::{lookup, resolve_record, Lookup, RecordStep};

const UUID: &str = "rtr1";

/// The catalog's record of the basement router.
fn router_record() -> Device {
    Device {
        ip: "192.168.1.1".to_string(),
        guid: UUID.to_string(),
        kind: device_type::Type::ROUTER,
        hardware: hardware_type::Type::OTHER,
        last_state: DeviceState::Flag(true),
        last_seen: "2021-06-01 12:00:00".to_string(),
        sw_version: "64".to_string(),
        useruuid: "user1".to_string(),
        name: "Basement Router".to_string(),
        nicknames: vec!["Basement Router".to_string()],
    }
}

fn resolve(guid: &str, record: Option<Device>) -> Device {
    match lookup(guid) {
        Lookup::Record(id) => assert_eq!(id, guid),
        Lookup::Zone { .. } => panic!("not a zone identifier"),
    }
    match resolve_record(record) {
        RecordStep::Done(d) => d,
        other => panic!("unexpected step {:?}", other),
    }
}

fn get_device_from_test_uuid() -> Device {
    resolve(UUID, Some(router_record()))
}

fn get_device_from_bad_uuid() -> Device {
    resolve("bad", None)
}

#[test]
fn test_get_device_from_bad_uuid() {
    let device = get_device_from_bad_uuid();
    assert_eq!(Device::default(), device);
}

#[test]
fn test_get_device_from_good_uuid() {
    let device = get_device_from_test_uuid();
    assert_ne!(Device::default(), device);
}

#[test]
fn test_device_has_correct_kind() {
    let device = get_device_from_test_uuid();
    assert_eq!(device_type::Type::ROUTER, device.kind);
}

#[test]
fn test_device_has_correct_hardware_type() {
    let device = get_device_from_test_uuid();
    assert_eq!(hardware_type::Type::OTHER, device.hardware);
}

#[test]
fn test_device_has_timestamp() {
    let device = get_device_from_test_uuid();
    assert_ne!("".to_string(), device.last_seen);
}

#[test]
fn test_device_has_ip() {
    let device = get_device_from_test_uuid();
    assert_ne!("".to_string(), device.ip);
}

#[test]
fn test_device_has_sw_version() {
    let device = get_device_from_test_uuid();
    assert_ne!("", device.sw_version);
}

#[test]
fn test_device_has_name() {
    let device = get_device_from_test_uuid();
    assert_ne!("".to_string(), device.name);
}

#[test]
fn test_device_has_nicknames() {
    let device = get_device_from_test_uuid();
    let empty_nicknames = vec!["".to_string()];
    assert_ne!(device.nicknames, empty_nicknames);
}

#[test]
fn test_device_to_google_device() {
    let device = get_device_from_test_uuid();
    let g = device.to_google_device();
    assert_eq!(
        g.attributes,
        Attributes::OnOff(OnOffAttribute { command_only_on_off: false, query_only_on_off: false })
    );
    assert_eq!(g.device_info.hw_version, "1.0");
    assert_eq!(g.device_info.manufacturer, "GTECH");
    assert_eq!(g.device_info.model, "Other");
    assert_eq!(g.device_info.sw_version, "64");
    assert_eq!(g.id, "rtr1");
    assert_eq!(g.name.default_names, vec!["Basement Router".to_string()]);
    assert_eq!(g.name.name, "Basement Router");
    assert_eq!(g.name.nicknames, vec!["Basement Router".to_string()]);
    assert_eq!(g.traits, vec!["action.devices.traits.Reboot"]);
    assert_eq!(g.device_type, "action.devices.types.ROUTER");
    assert!(g.will_report_state);
}
