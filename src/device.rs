//! The wireless device that the hotspot and the client connection run on.
use vstd::prelude::*;

verus! {

/// What kind of network hardware a device is.
#[derive(Clone, Copy, Debug, PartialEq, Eq, Structural)]
pub enum DeviceKind {
    WiFi,
    Ethernet,
    Other,
}

/// A network interface as the network service reports it.
#[derive(Clone, Debug)]
pub struct Device {
    pub interface: String,
    pub kind: DeviceKind,
}

/// A device is usable for provisioning when it is WiFi-capable and, where an
/// interface name is asked for, carries that name.
pub open spec fn usable(d: Device, interface: Option<Seq<char>>) -> bool {
    &&& d.kind == DeviceKind::WiFi
    &&& (interface matches Some(name) ==> d.interface@ == name)
}

pub open spec fn interface_view(interface: &Option<String>) -> Option<Seq<char>> {
    match interface {
        Some(s) => Some(s@),
        None => None,
    }
}

/// Index of the first usable device of `devices`, or `None` when there is none.
pub fn select_device(devices: &Vec<Device>, interface: &Option<String>) -> (r: Option<usize>)
    ensures
        r matches Some(i) ==> i < devices@.len() && usable(devices@[i as int], interface_view(interface))
            && forall|j: int| 0 <= j < i ==> !usable(#[trigger] devices@[j], interface_view(interface)),
        r is None <==> forall|j: int|
            0 <= j < devices@.len() ==> !usable(#[trigger] devices@[j], interface_view(interface)),
{
    let mut i: usize = 0;
    while i < devices.len()
        invariant
            i <= devices@.len(),
            forall|j: int| 0 <= j < i ==> !usable(#[trigger] devices@[j], interface_view(interface)),
        decreases devices@.len() - i,
    {
        let d = &devices[i];
        let wanted = match interface {
            Some(name) => d.interface == *name,
            None => true,
        };
        if d.kind == DeviceKind::WiFi && wanted {
            return Some(i);
        }
        i = i + 1;
    }
    None
}

} // verus!
