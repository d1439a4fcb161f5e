//! The hardware platforms a device runs on.

use vstd::prelude::*;

use crate::text::str_eq;

verus! {

/// The hardware a device runs on. It decides how the device is reached over
/// the network and the model name shown to the smart-home platform.
#[allow(non_camel_case_types)]
#[derive(Debug, Clone, Copy, PartialEq, Eq, Structural)]
pub enum HardwareType {
    ARDUINO,
    PI,
    OTHER,
    LG,
}

/// The hardware platform under the module's own name, `hardware_type::Type`.
pub type Type = HardwareType;

/// The platform that a textual name denotes, if any.
pub open spec fn hardware_type_named(s: Seq<char>) -> Option<HardwareType> {
    if s == "ARDUINO"@ {
        Some(HardwareType::ARDUINO)
    } else if s == "PI"@ {
        Some(HardwareType::PI)
    } else if s == "OTHER"@ {
        Some(HardwareType::OTHER)
    } else if s == "LG"@ {
        Some(HardwareType::LG)
    } else {
        None
    }
}

impl HardwareType {
    /// Reads a platform from its upper-case name.
    pub fn from_name(s: &str) -> (r: Option<HardwareType>)
        ensures
            r == hardware_type_named(s@),
    {
        if str_eq(s, "ARDUINO") {
            Some(HardwareType::ARDUINO)
        } else if str_eq(s, "PI") {
            Some(HardwareType::PI)
        } else if str_eq(s, "OTHER") {
            Some(HardwareType::OTHER)
        } else if str_eq(s, "LG") {
            Some(HardwareType::LG)
        } else {
            None
        }
    }
}

impl std::str::FromStr for HardwareType {
    type Err = ();

    fn from_str(s: &str) -> Result<HardwareType, ()> {
        match HardwareType::from_name(s) {
            Some(t) => Ok(t),
            None => Err(()),
        }
    }
}

} // verus!
