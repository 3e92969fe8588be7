//! Composable network packets: stack protocol headers (Ethernet, VLAN, ARP, IPv4, IPv6, ICMP,
//! UDP, TCP, payload) into a chain, build the chain into the bytes to send, and parse bytes
//! back into a chain.
//!
//! A chain is modelled as the sequence of its headers, each a kind and its bytes
//! (`LayerMut::stack`). `add` follows the allowed-successor and reorder tables of
//! `kinds`; `build` fills next-protocol codes, defaults, lengths and checksums bottom-first;
//! `parse` decodes top-down, dropping link-layer padding. `laws` and `round_trip` state how
//! these operations relate.
use vstd::prelude::*;

pub mod bytes;
pub mod checksum;
pub mod compose;
pub mod craft;
mod entropy;
pub mod fields;
pub mod helper;
pub mod kinds;
pub mod laws;
pub mod layers;
pub mod magics;
pub mod parse;
pub mod round_trip;
pub mod serialize;
pub mod text;
pub mod traits;
pub mod views;

pub use craft::{parse_ipv4, parse_options, parse_vlan};
pub use helper::{ArpPacket, TcpPacket};
pub use kinds::Layers;
pub use layers::{
    ArpMut, EtherMut, IcmpMut, Ipv4Mut, Ipv6Mut, LayerMut, PayloadMut, TcpMut, UdpMut, VlanMut,
};
pub use traits::{LayerImmutable, LayerMutable};
pub use views::{Arp, Ether, Icmp, Ipv4, Ipv6, Layer, Payload, Tcp, Udp, Vlan};

verus! {

} // verus!
