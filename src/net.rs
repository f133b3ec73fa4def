use vstd::prelude::*;

verus! {

/// A protocol (IPv4) address.
pub type IP = [u8; 4];

/// A hardware (MAC) address.
pub type HwAddr = [u8; 6];

/// The identity of this node on the link: its own IPv4 and MAC address.
#[derive(Clone, Copy, Debug, PartialEq, Eq)]
pub struct NetworkDevice {
    pub ip: IP,
    pub hw: HwAddr,
}

impl NetworkDevice {
    pub fn new(ip: IP, hw: HwAddr) -> (r: NetworkDevice)
        ensures
            r.ip == ip,
            r.hw == hw,
    {
        NetworkDevice { ip: ip, hw: hw }
    }
}

} // verus!
