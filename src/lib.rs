//! A userspace fragment of a network stack: the Ethernet frame codec, dispatch
//! of frames to protocol handlers by ethertype, and an ARP responder with its
//! translation table.

pub mod arp;
pub mod error;
pub mod ethernet;
pub mod net;
pub mod wire;
