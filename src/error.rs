use vstd::prelude::*;

verus! {

/// Why a frame was dropped without a reply.
///
/// Every variant is local to one frame: the dispatch loop reports it and goes
/// on with the next frame.
#[derive(Clone, Copy, Debug, PartialEq, Eq, Structural)]
pub enum NetError {
    /// The raw buffer (of the given length) cannot hold the 14-byte header.
    FrameTooShort(usize),
    /// The ethertype field holds a payload length (at most 1500), not a protocol.
    LengthFramed(u16),
    /// No handler is registered for this ethertype.
    UnknownEtherType(u16),
    /// An ARP payload must be exactly 28 bytes; this one had the given length.
    InvalidArpLength(usize),
    /// The ARP hardware type is not Ethernet.
    UnsupportedHardwareType(u16),
}

} // verus!
