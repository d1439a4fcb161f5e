//! The smart-home traits a device offers.

use vstd::prelude::*;

verus! {

/// The traits of a television.
pub open spec fn spec_tv_traits() -> Seq<Seq<char>> {
    seq!["action.devices.traits.OnOff"@, "action.devices.traits.Volume"@]
}

/// The traits of something that opens and closes.
pub open spec fn spec_open_close_traits() -> Seq<Seq<char>> {
    seq!["action.devices.traits.OpenClose"@]
}

/// The traits of something that turns on and off.
pub open spec fn spec_on_off_traits() -> Seq<Seq<char>> {
    seq!["action.devices.traits.OnOff"@]
}

/// The traits of something that can be rebooted.
pub open spec fn spec_reboot_traits() -> Seq<Seq<char>> {
    seq!["action.devices.traits.Reboot"@]
}

/// Gets all the traits that belong to a TV.
pub fn tv_traits() -> (r: Vec<&'static str>)
    ensures
        r.deep_view() == spec_tv_traits(),
{
    let r = vec!["action.devices.traits.OnOff", "action.devices.traits.Volume"];
    assert(r.deep_view() =~= spec_tv_traits());
    r
}

/// Gets all the traits that belong to opening/closing doors.
pub fn open_close_traits() -> (r: Vec<&'static str>)
    ensures
        r.deep_view() == spec_open_close_traits(),
{
    let r = vec!["action.devices.traits.OpenClose"];
    assert(r.deep_view() =~= spec_open_close_traits());
    r
}

/// Gets all traits that belong to turning things on/off.
pub fn on_off_traits() -> (r: Vec<&'static str>)
    ensures
        r.deep_view() == spec_on_off_traits(),
{
    let r = vec!["action.devices.traits.OnOff"];
    assert(r.deep_view() =~= spec_on_off_traits());
    r
}

/// Gets all traits that belong to things that can be rebooted.
pub fn reboot_traits() -> (r: Vec<&'static str>)
    ensures
        r.deep_view() == spec_reboot_traits(),
{
    let r = vec!["action.devices.traits.Reboot"];
    assert(r.deep_view() =~= spec_reboot_traits());
    r
}

} // verus!
