//! The kinds of device the gateway controls.

use vstd::prelude::*;

use crate::text::str_eq;

verus! {

/// What kind a device is. The kind decides how a command reaches the device
/// and how it is presented to the smart-home platform.
#[allow(non_camel_case_types)]
#[derive(Debug, Clone, Copy, PartialEq, Eq, Structural)]
pub enum DeviceType {
    LIGHT,
    SWITCH,
    GARAGE,
    SPRINKLER,
    ROUTER,
    SqlSprinklerHost,
    TV,
}

/// The device kind under the module's own name, `device_type::Type`.
pub type Type = DeviceType;

/// The kind that a textual name denotes, if any.
pub open spec fn device_type_named(s: Seq<char>) -> Option<DeviceType> {
    if s == "LIGHT"@ {
        Some(DeviceType::LIGHT)
    } else if s == "SWITCH"@ {
        Some(DeviceType::SWITCH)
    } else if s == "GARAGE"@ {
        Some(DeviceType::GARAGE)
    } else if s == "SPRINKLER"@ {
        Some(DeviceType::SPRINKLER)
    } else if s == "ROUTER"@ {
        Some(DeviceType::ROUTER)
    } else if s == "SQLSPRINKLER_HOST"@ {
        Some(DeviceType::SqlSprinklerHost)
    } else if s == "TV"@ {
        Some(DeviceType::TV)
    } else {
        None
    }
}

impl DeviceType {
    /// Reads a kind from its upper-case name (`"SQLSPRINKLER_HOST"` for an
    /// irrigation host).
    pub fn from_name(s: &str) -> (r: Option<DeviceType>)
        ensures
            r == device_type_named(s@),
    {
        if str_eq(s, "LIGHT") {
            Some(DeviceType::LIGHT)
        } else if str_eq(s, "SWITCH") {
            Some(DeviceType::SWITCH)
        } else if str_eq(s, "GARAGE") {
            Some(DeviceType::GARAGE)
        } else if str_eq(s, "SPRINKLER") {
            Some(DeviceType::SPRINKLER)
        } else if str_eq(s, "ROUTER") {
            Some(DeviceType::ROUTER)
        } else if str_eq(s, "SQLSPRINKLER_HOST") {
            Some(DeviceType::SqlSprinklerHost)
        } else if str_eq(s, "TV") {
            Some(DeviceType::TV)
        } else {
            None
        }
    }
}

impl std::str::FromStr for DeviceType {
    type Err = ();

    fn from_str(s: &str) -> Result<DeviceType, ()> {
        match DeviceType::from_name(s) {
            Some(t) => Ok(t),
            None => Err(()),
        }
    }
}

} // verus!
