//! Snapshots of the adapter and the devices it knows.
use vstd::prelude::*;

use crate::device::{address_text, Address, BTDevice, BTDeviceStatus};
use crate::ordering::{devices_in_order, lemma_sorted_devices, sort_devices, sorted_devices};

verus! {

broadcast use vstd::seq_lib::group_to_multiset_ensures;

/// The adapter's power flag and its devices in display order.
#[derive(Debug)]
pub struct BTState {
    pub on: bool,
    pub devices: Vec<BTDevice>,
}

impl Clone for BTState {
    fn clone(&self) -> (r: Self)
        ensures
            r.on == self.on,
            r.devices@ == self.devices@,
    {
        BTState { on: self.on, devices: self.devices.clone() }
    }
}

impl Default for BTState {
    fn default() -> (r: Self)
        ensures
            !r.on,
            r.devices@.len() == 0,
    {
        BTState { on: false, devices: Vec::new() }
    }
}

/// What the per-device queries of one rebuild returned; `None` where a query failed
/// (or, for the name and the battery level, where the device reported none).
#[derive(Debug)]
pub struct DeviceQuery {
    pub address: Address,
    pub name: Option<String>,
    pub is_paired: Option<bool>,
    pub is_trusted: Option<bool>,
    pub is_connected: Option<bool>,
    pub battery_percentage: Option<u8>,
}

/// The name shown for a device: the reported one, or the address when none is usable.
pub open spec fn display_name(q: DeviceQuery) -> Seq<char> {
    match q.name {
        Some(n) => if n@.len() > 0 {
            n@
        } else {
            address_text(q.address)
        },
        None => address_text(q.address),
    }
}

/// Status derived by a rebuild: connected, else paired, else disconnected.
pub open spec fn query_status(q: DeviceQuery) -> BTDeviceStatus {
    if q.is_connected == Some(true) {
        BTDeviceStatus::Connected
    } else if q.is_paired == Some(true) {
        BTDeviceStatus::Paired
    } else {
        BTDeviceStatus::Disconnected
    }
}

/// `d` is the record a rebuild makes of the query results `q`.
pub open spec fn device_from_query(d: BTDevice, q: DeviceQuery) -> bool {
    &&& d.name@ == display_name(q)
    &&& d.address == q.address
    &&& d.status == query_status(q)
    &&& d.is_paired == (q.is_paired == Some(true))
    &&& d.is_trusted == (q.is_trusted == Some(true))
    &&& d.battery_percentage == q.battery_percentage
}

/// Every per-device query of `q` failed.
pub open spec fn all_queries_failed(q: DeviceQuery) -> bool {
    &&& q.name is None
    &&& q.is_paired is None
    &&& q.is_trusted is None
    &&& q.is_connected is None
    &&& q.battery_percentage is None
}

impl BTDevice {
    /// Builds a device record from query results, putting a default in place of
    /// each failed query.
    pub fn from_device(q: &DeviceQuery) -> (r: BTDevice)
        ensures
            device_from_query(r, *q),
    {
        let name = match &q.name {
            Some(n) => {
                if n.as_str().unicode_len() > 0 {
                    n.clone()
                } else {
                    q.address.to_text()
                }
            },
            None => q.address.to_text(),
        };
        let is_paired = match q.is_paired {
            Some(b) => b,
            None => false,
        };
        let is_trusted = match q.is_trusted {
            Some(b) => b,
            None => false,
        };
        let is_connected = match q.is_connected {
            Some(b) => b,
            None => false,
        };
        let status = if is_connected {
            BTDeviceStatus::Connected
        } else if is_paired {
            BTDeviceStatus::Paired
        } else {
            BTDeviceStatus::Disconnected
        };
        BTDevice {
            name,
            address: q.address,
            status,
            is_paired,
            is_trusted,
            battery_percentage: q.battery_percentage,
        }
    }
}

/// `devices` is the display-ordered list of the records made from `queries`.
pub open spec fn snapshot_devices(devices: Seq<BTDevice>, queries: Seq<DeviceQuery>) -> bool {
    exists|made: Seq<BTDevice>|
        {
            &&& made.len() == queries.len()
            &&& forall|i: int| 0 <= i < made.len() ==> device_from_query(#[trigger] made[i], queries[i])
            &&& devices == sorted_devices(made)
        }
}

/// Builds a snapshot from the power query and the per-device query results.
/// Only a failed power query fails the rebuild.
pub fn build_state(powered: Option<bool>, queries: &Vec<DeviceQuery>) -> (r: Option<BTState>)
    ensures
        r is None <==> powered is None,
        r matches Some(s) ==> powered == Some(s.on) && snapshot_devices(s.devices@, queries@)
            && devices_in_order(s.devices@),
{
    let on = match powered {
        Some(b) => b,
        None => {
            return None;
        },
    };
    let mut devices: Vec<BTDevice> = Vec::new();
    let mut i: usize = 0;
    while i < queries.len()
        invariant
            i <= queries.len(),
            devices@.len() == i,
            forall|k: int| 0 <= k < i ==> device_from_query(#[trigger] devices@[k], queries@[k]),
        decreases queries.len() - i,
    {
        devices.push(BTDevice::from_device(&queries[i]));
        i = i + 1;
    }
    let ghost made = devices@;
    sort_devices(&mut devices);
    assert(made.len() == queries@.len());
    Some(BTState { on, devices })
}

/// A rebuild whose per-device queries all fail still lists every device, each
/// with the defaults: its address as name, flags false, no battery level, and
/// status Disconnected.
pub proof fn lemma_failed_queries_give_defaults(devices: Seq<BTDevice>, queries: Seq<DeviceQuery>)
    requires
        snapshot_devices(devices, queries),
        forall|i: int| 0 <= i < queries.len() ==> all_queries_failed(#[trigger] queries[i]),
    ensures
        devices.len() == queries.len(),
        forall|j: int|
            0 <= j < devices.len() ==> {
                &&& (#[trigger] devices[j]).name@ == address_text(devices[j].address)
                &&& devices[j].status == BTDeviceStatus::Disconnected
                &&& !devices[j].is_paired
                &&& !devices[j].is_trusted
                &&& devices[j].battery_percentage is None
            },
{
    let made = choose|made: Seq<BTDevice>|
        {
            &&& made.len() == queries.len()
            &&& forall|i: int| 0 <= i < made.len() ==> device_from_query(#[trigger] made[i], queries[i])
            &&& devices == sorted_devices(made)
        };
    lemma_sorted_devices(made);
    assert forall|j: int| 0 <= j < devices.len() implies {
        &&& (#[trigger] devices[j]).name@ == address_text(devices[j].address)
        &&& devices[j].status == BTDeviceStatus::Disconnected
        &&& !devices[j].is_paired
        &&& !devices[j].is_trusted
        &&& devices[j].battery_percentage is None
    } by {
        let d = devices[j];
        assert(devices.to_multiset().count(d) > 0);
        assert(made.contains(d));
        let k = choose|k: int| 0 <= k < made.len() && made[k] == d;
        assert(device_from_query(made[k], queries[k]));
        assert(all_queries_failed(queries[k]));
    }
}

} // verus!
