//! Packet capture on a wireless interface.

use vstd::prelude::*;

verus! {

/// Capture session bound to one interface.
pub struct PacketCapture {
    pub interface: String,
}

impl PacketCapture {
    pub fn new(interface: String) -> (r: Self)
        ensures
            r.interface@ == interface@,
    {
        PacketCapture { interface }
    }
}

} // verus!
