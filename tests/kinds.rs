use std::str::FromStr;

use pimation::auth::check_auth;
use pimation::device_type::{DeviceType, Type};
use pimation::hardware_type::HardwareType;
use pimation::text::{integer_to_text, natural_to_text, parse_i64};

#[test]
fn device_type_names() {
    assert_eq!(DeviceType::from_str("LIGHT"), Ok(DeviceType::LIGHT));
    assert_eq!(DeviceType::from_str("SQLSPRINKLER_HOST"), Ok(DeviceType::SqlSprinklerHost));
    assert_eq!(Type::from_str("TV"), Ok(Type::TV));
    assert_eq!(DeviceType::from_name("ROUTER"), Some(DeviceType::ROUTER));
    assert_eq!(DeviceType::from_str("light"), Err(()));
    assert_eq!(DeviceType::from_name(""), None);
}

#[test]
fn hardware_type_names() {
    assert_eq!(HardwareType::from_str("ARDUINO"), Ok(HardwareType::ARDUINO));
    assert_eq!(HardwareType::from_str("PI"), Ok(HardwareType::PI));
    assert_eq!(HardwareType::from_str("OTHER"), Ok(HardwareType::OTHER));
    assert_eq!(HardwareType::from_name("LG"), Some(HardwareType::LG));
    assert_eq!(HardwareType::from_str("LGX"), Err(()));
}

#[test]
fn integers_as_text() {
    assert_eq!(natural_to_text(0), "0");
    assert_eq!(natural_to_text(1203), "1203");
    assert_eq!(integer_to_text(-45), "-45");
    assert_eq!(integer_to_text(i128::MIN), i128::MIN.to_string());
    assert_eq!(integer_to_text(i128::MAX), i128::MAX.to_string());
}

#[test]
fn integers_from_text() {
    assert_eq!(parse_i64("64"), Some(64));
    assert_eq!(parse_i64("+7"), Some(7));
    assert_eq!(parse_i64("-12"), Some(-12));
    assert_eq!(parse_i64("9223372036854775807"), Some(i64::MAX));
    assert_eq!(parse_i64("-9223372036854775808"), Some(i64::MIN));
    assert_eq!(parse_i64("9223372036854775808"), None);
    assert_eq!(parse_i64(""), None);
    assert_eq!(parse_i64("-"), None);
    assert_eq!(parse_i64("1a"), None);
    assert_eq!(parse_i64(" 1"), None);
}

#[test]
fn api_key_check() {
    assert!(check_auth(Some("k3y"), "k3y"));
    assert!(!check_auth(Some("k3y"), "k3"));
    assert!(!check_auth(None, "k3y"));
}
