//! Listing an owner's devices, each irrigation host followed by its zones.

use vstd::prelude::*;

use crate::device::{projection, Device};
use crate::google::GoogleDevice;
use crate::device_type::DeviceType;
use crate::sqlsprinkler::{check_if_device_is_sqlsprinkler_host, is_zone_device, Zone};

verus! {

/// One resolved device of an owner, with the zones its host reported (empty
/// for a device that is not an irrigation host).
#[derive(Debug, Clone, PartialEq, Eq)]
pub struct ListedDevice {
    pub device: Device,
    pub zones: Vec<Zone>,
}

/// How many devices an entry contributes to a listing: itself, and its zones
/// when it is an irrigation host.
pub open spec fn block_len(e: ListedDevice) -> nat {
    if e.device.kind == DeviceType::SqlSprinklerHost {
        1 + e.zones@.len()
    } else {
        1
    }
}

/// The length of the listing of the given entries.
pub open spec fn listing_len(entries: Seq<ListedDevice>) -> nat
    decreases entries.len(),
{
    if entries.len() == 0 {
        0
    } else {
        listing_len(entries.drop_last()) + block_len(entries.last())
    }
}

/// From position `start` on, `out` holds the entry's device and then, for an
/// irrigation host, the devices of its zones in the order the host listed
/// them.
pub open spec fn block_at(out: Seq<Device>, start: int, e: ListedDevice) -> bool {
    &&& out[start] == e.device
    &&& e.device.kind == DeviceType::SqlSprinklerHost ==> forall|j: int|
        0 <= j < e.zones@.len() ==> is_zone_device(
            #[trigger] out[start + 1 + j],
            e.device.guid@,
            e.device.ip@,
            e.zones@[j],
        )
}

/// `out` lists the entries in their order, each followed by its block.
pub open spec fn is_listing(entries: Seq<ListedDevice>, out: Seq<Device>) -> bool {
    &&& out.len() == listing_len(entries)
    &&& forall|k: int|
        0 <= k < entries.len() ==> block_at(out, listing_len(#[trigger] entries.take(k)) as int, entries[k])
}

/// The listing of a prefix ends no later than the block of any later entry
/// begins.
proof fn lemma_listing_len_grows(entries: Seq<ListedDevice>, k: int, i: int)
    requires
        0 <= k < i <= entries.len(),
    ensures
        listing_len(entries.take(k)) + block_len(entries[k]) <= listing_len(entries.take(i)),
    decreases i - k,
{
    assert(entries.take(i).drop_last() =~= entries.take(i - 1));
    if k < i - 1 {
        lemma_listing_len_grows(entries, k, i - 1);
    }
}

/// Lists the devices in the given order, each irrigation host directly
/// followed by its zones.
pub fn get_devices_uuid(entries: Vec<ListedDevice>) -> (r: Vec<Device>)
    ensures
        is_listing(entries@, r@),
{
    let ghost all = entries@;
    let mut out: Vec<Device> = Vec::new();
    for entry in it: entries
        invariant
            it.seq() == all,
            it.index() <= all.len(),
            out@.len() == listing_len(all.take(it.index() as int)),
            forall|k: int|
                0 <= k < it.index() ==> block_at(
                    out@,
                    listing_len(#[trigger] all.take(k)) as int,
                    all[k],
                ),
    {
        let ghost i = it.index() as int;
        assert(i < all.len());
        assert(entry == all[i]);
        let ghost start = out@.len() as int;
        let ghost before = out@;
        assert(all.take(i + 1).drop_last() =~= all.take(i as int));
        let mut zone_devices = check_if_device_is_sqlsprinkler_host(&entry.device, &entry.zones);
        let ghost zones = zone_devices@;
        out.push(entry.device);
        out.append(&mut zone_devices);
        assert forall|k: int| 0 <= k < i + 1 implies block_at(
            out@,
            listing_len(#[trigger] all.take(k)) as int,
            all[k],
        ) by {
            if k < i {
                lemma_listing_len_grows(all, k, i as int);
                assert(block_at(before, listing_len(all.take(k)) as int, all[k]));
                if all[k].device.kind == DeviceType::SqlSprinklerHost {
                    assert forall|j: int| 0 <= j < all[k].zones@.len() implies is_zone_device(
                        #[trigger] out@[listing_len(all.take(k)) + 1 + j],
                        all[k].device.guid@,
                        all[k].device.ip@,
                        all[k].zones@[j],
                    ) by {
                        assert(out@[listing_len(all.take(k)) + 1 + j] == before[listing_len(
                            all.take(k),
                        ) + 1 + j]);
                    }
                }
            } else {
                assert(k == i);
                if all[k].device.kind == DeviceType::SqlSprinklerHost {
                    assert forall|j: int| 0 <= j < all[k].zones@.len() implies is_zone_device(
                        #[trigger] out@[start + 1 + j],
                        all[k].device.guid@,
                        all[k].device.ip@,
                        all[k].zones@[j],
                    ) by {
                        assert(out@[start + 1 + j] == zones[j]);
                    }
                }
            }
        }
    }
    assert(all.take(all.len() as int) =~= all);
    out
}

/// Describes each listed device as the smart-home platform expects it, in
/// the same order.
pub fn google_devices(devices: &Vec<Device>) -> (r: Vec<GoogleDevice>)
    ensures
        r@.len() == devices@.len(),
        forall|i: int| 0 <= i < devices@.len() ==> (#[trigger] r@[i])@ == projection(devices@[i]),
{
    let mut r: Vec<GoogleDevice> = Vec::new();
    let mut i: usize = 0;
    while i < devices.len()
        invariant
            i <= devices@.len(),
            r@.len() == i,
            forall|k: int| 0 <= k < i ==> (#[trigger] r@[k])@ == projection(devices@[k]),
        decreases devices@.len() - i,
    {
        r.push(devices[i].to_google_device());
        i = i + 1;
    }
    r
}

/// The listing of an owner whose one device is an irrigation host with `n`
/// zones holds `1 + n` devices: the host, then its zones in the order the
/// host listed them.
pub proof fn lemma_single_host_listing(entries: Seq<ListedDevice>, out: Seq<Device>)
    requires
        entries.len() == 1,
        entries[0].device.kind == DeviceType::SqlSprinklerHost,
        is_listing(entries, out),
    ensures
        out.len() == 1 + entries[0].zones@.len(),
        out[0] == entries[0].device,
        forall|j: int|
            0 <= j < entries[0].zones@.len() ==> is_zone_device(
                #[trigger] out[1 + j],
                entries[0].device.guid@,
                entries[0].device.ip@,
                entries[0].zones@[j],
            ),
{
    assert(entries.drop_last() =~= Seq::<ListedDevice>::empty());
    assert(entries.take(0) =~= Seq::<ListedDevice>::empty());
    assert(listing_len(entries.take(0)) == 0);
    assert(block_at(out, 0, entries[0]));
    assert forall|j: int| 0 <= j < entries[0].zones@.len() implies is_zone_device(
        #[trigger] out[1 + j],
        entries[0].device.guid@,
        entries[0].device.ip@,
        entries[0].zones@[j],
    ) by {
        assert(out[0 + 1 + j] == out[1 + j]);
    }
}

} // verus!
