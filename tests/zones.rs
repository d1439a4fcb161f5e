use pimation::device::{Device, DeviceState};
use pimation::device_type::DeviceType;
use pimation::hardware_type::HardwareType;
use pimation::listing::{get_devices_uuid, ListedDevice};
use pimation::resolver::{lookup, Lookup};
use pimation::sqlsprinkler::{
    check_if_device_is_sqlsprinkler_host, get_system_state_url, get_zone, get_zone_info_url, Zone,
};
use pimation::zone_id::check_if_zone;

const HOST: &str = "0a1b2c3d-4e5f-6789-abcd-ef0123456789";

fn host() -> Device {
    Device {
        ip: "10.0.0.5".to_string(),
        guid: HOST.to_string(),
        kind: DeviceType::SqlSprinklerHost,
        hardware: HardwareType::PI,
        last_state: DeviceState::Flag(true),
        last_seen: String::new(),
        sw_version: "1".to_string(),
        useruuid: "u".to_string(),
        name: "Sprinklers".to_string(),
        nicknames: vec![],
    }
}

fn zone(id: i8, order: i8, name: &str) -> Zone {
    Zone {
        name: name.to_string(),
        gpio: 4,
        time: 10,
        enabled: true,
        auto_off: true,
        system_order: order,
        state: false,
        id,
    }
}

fn light(guid: &str) -> Device {
    Device {
        ip: "10.0.0.8".to_string(),
        guid: guid.to_string(),
        kind: DeviceType::LIGHT,
        hardware: HardwareType::ARDUINO,
        last_state: DeviceState::Flag(false),
        last_seen: String::new(),
        sw_version: "2".to_string(),
        useruuid: "u".to_string(),
        name: "Porch".to_string(),
        nicknames: vec![],
    }
}

#[test]
fn zone_identifiers() {
    assert!(check_if_zone(&format!("{}-3", HOST)));
    assert!(check_if_zone("0a1b2c3d4e5f6789abcdef0123456789-0"));
    assert!(check_if_zone("0A1B2C3D-4E5F6789-ABCD-EF0123456789-9"));
    assert!(!check_if_zone(HOST));
    assert!(!check_if_zone(&format!("{}-12", HOST)));
    assert!(!check_if_zone(&format!("{}-x", HOST)));
    assert!(!check_if_zone("0a1b2c3d-4e5f-6789-abcd-ef012345678-3"));
    assert!(!check_if_zone("0a1b2c3g-4e5f-6789-abcd-ef0123456789-3"));
    assert!(!check_if_zone("0a1b2c3d--4e5f-6789-abcd-ef0123456789-3"));
    assert!(!check_if_zone(""));
    assert!(!check_if_zone("rtr1"));
}

#[test]
fn zone_identifiers_agree_with_the_textual_pattern() {
    let re = regex::Regex::new(
        r"^[0-9A-Fa-f]{8}-?(?:[0-9A-Fa-f]{4}-?){3}[0-9A-Fa-f]{12}-[0-9]$",
    )
    .unwrap();
    let samples = [
        format!("{}-3", HOST),
        "0a1b2c3d4e5f6789abcdef0123456789-0".to_string(),
        "0a1b2c3d-4e5f6789abcd-ef0123456789-5".to_string(),
        "0a1b2c3d-4e5f-6789-abcd-ef0123456789-".to_string(),
        "0a1b2c3d-4e5f-6789-abcd-ef01234567890-1".to_string(),
        "-0a1b2c3d-4e5f-6789-abcd-ef0123456789-1".to_string(),
        HOST.to_string(),
        "bad".to_string(),
        String::new(),
    ];
    for s in samples.iter() {
        assert_eq!(check_if_zone(s), re.is_match(s), "{}", s);
    }
}

#[test]
fn lookup_splits_zone_identifiers() {
    match lookup(&format!("{}-4", HOST)) {
        Lookup::Zone { host_id, index } => {
            assert_eq!(host_id, HOST);
            assert_eq!(index, 4);
        }
        other => panic!("unexpected {:?}", other),
    }
}

#[test]
fn unknown_identifier_is_a_catalog_lookup() {
    assert_eq!(lookup("nothing-here"), Lookup::Record("nothing-here".to_string()));
}

#[test]
fn zone_resolves_to_sprinkler_device() {
    let zones = vec![zone(1, 0, "Front"), zone(2, 1, "Back"), zone(3, 2, "Side")];
    let d = get_zone(HOST, &host(), &zones, 2);
    assert_eq!(d.kind, DeviceType::SPRINKLER);
    assert_eq!(d.hardware, HardwareType::PI);
    assert_eq!(d.guid, format!("{}-2", HOST));
    assert_eq!(d.ip, "10.0.0.5");
    assert_eq!(d.sw_version, "2");
    assert_eq!(d.name, "Back");
    assert_eq!(d.nicknames, vec!["Back".to_string(), "Zone 2".to_string()]);
    assert_eq!(d.last_state, DeviceState::Zone { on: false, id: 2, index: 1 });
}

#[test]
fn first_matching_zone_wins() {
    let zones = vec![zone(5, 0, "First"), zone(5, 1, "Second")];
    assert_eq!(get_zone(HOST, &host(), &zones, 5).name, "First");
}

#[test]
fn missing_zone_resolves_to_default() {
    let zones = vec![zone(1, 0, "Front")];
    assert_eq!(get_zone(HOST, &host(), &zones, 7), Device::default());
    assert_eq!(get_zone(HOST, &host(), &vec![], 0), Device::default());
}

#[test]
fn host_expands_into_its_zones() {
    let zones = vec![zone(1, 0, "Front"), zone(2, 1, "Back")];
    let devices = check_if_device_is_sqlsprinkler_host(&host(), &zones);
    assert_eq!(devices.len(), 2);
    assert_eq!(devices[0].guid, format!("{}-1", HOST));
    assert_eq!(devices[1].guid, format!("{}-2", HOST));
    assert_eq!(devices[1].nicknames, vec!["Back".to_string(), "Zone 2".to_string()]);
    assert!(check_if_device_is_sqlsprinkler_host(&light("l1"), &zones).is_empty());
}

#[test]
fn single_host_listing_has_host_then_zones() {
    let zones = vec![zone(1, 0, "Front"), zone(2, 1, "Back"), zone(3, 2, "Side")];
    let out = get_devices_uuid(vec![ListedDevice { device: host(), zones }]);
    assert_eq!(out.len(), 4);
    assert_eq!(out[0], host());
    assert_eq!(out[1].name, "Front");
    assert_eq!(out[2].name, "Back");
    assert_eq!(out[3].name, "Side");
    assert_eq!(out[3].guid, format!("{}-3", HOST));
}

#[test]
fn listing_keeps_owner_order() {
    let entries = vec![
        ListedDevice { device: light("a"), zones: vec![zone(9, 0, "ignored")] },
        ListedDevice { device: host(), zones: vec![zone(1, 0, "Front")] },
        ListedDevice { device: light("b"), zones: vec![] },
    ];
    let out = get_devices_uuid(entries);
    let ids: Vec<String> = out.iter().map(|d| d.guid.clone()).collect();
    assert_eq!(ids, vec!["a".to_string(), HOST.to_string(), format!("{}-1", HOST), "b".to_string()]);
    assert!(get_devices_uuid(vec![]).is_empty());
}

#[test]
fn host_urls() {
    assert_eq!(get_system_state_url("10.0.0.5"), "http://10.0.0.5:3030/system/state");
    assert_eq!(get_zone_info_url("10.0.0.5"), "http://10.0.0.5:3030/zone/info");
}
