//! The closed set of protocol kinds and the insertion policy between them.
use vstd::prelude::*;

verus! {

/// Identifies the protocol of one layer of a packet.
#[derive(Clone, Copy, Debug, Hash, PartialEq, Eq, Structural, PartialOrd, Ord)]
pub enum Layers {
    Ether,
    Vlan,
    Arp,
    Ipv4,
    Ipv6,
    Icmp,
    Udp,
    Tcp,
    Payload,
}

/// Minimum number of header bytes of each kind.
pub open spec fn min_size(k: Layers) -> nat {
    match k {
        Layers::Ether => 14,
        Layers::Vlan => 4,
        Layers::Arp => 28,
        Layers::Ipv4 => 20,
        Layers::Ipv6 => 40,
        Layers::Icmp => 4,
        Layers::Udp => 8,
        Layers::Tcp => 20,
        Layers::Payload => 0,
    }
}

/// Kinds that can hold an upper layer.
pub open spec fn has_upper(k: Layers) -> bool {
    match k {
        Layers::Arp | Layers::Icmp | Layers::Payload => false,
        _ => true,
    }
}

/// Allowed successors: which kinds may be attached as the immediate child of a kind.
pub open spec fn allows(parent: Layers, child: Layers) -> bool {
    match parent {
        Layers::Ether | Layers::Vlan => child == Layers::Vlan || child == Layers::Ipv4
            || child == Layers::Ipv6 || child == Layers::Arp,
        Layers::Ipv4 => child == Layers::Udp || child == Layers::Tcp || child == Layers::Icmp,
        Layers::Ipv6 => child == Layers::Udp || child == Layers::Tcp,
        Layers::Udp | Layers::Tcp => child == Layers::Payload,
        _ => false,
    }
}

/// Reorder pairs: inserting `inserted` under `parent` while its child is of kind `existing`
/// nests the existing child below the inserted layer.
pub open spec fn reorders(parent: Layers, existing: Layers, inserted: Layers) -> bool {
    match parent {
        Layers::Ether | Layers::Vlan => inserted == Layers::Vlan && (existing == Layers::Ipv4
            || existing == Layers::Arp || existing == Layers::Ipv6),
        _ => false,
    }
}

/// EtherType announcing a child of the given kind under Ethernet or VLAN.
pub open spec fn link_code(k: Layers) -> Option<u16> {
    match k {
        Layers::Ipv4 => Some(0x0800u16),
        Layers::Ipv6 => Some(0x86DDu16),
        Layers::Vlan => Some(0x8100u16),
        Layers::Arp => Some(0x0806u16),
        _ => None,
    }
}

/// Kind selected by an EtherType.
pub open spec fn link_kind(code: u16) -> Option<Layers> {
    if code == 0x0800 {
        Some(Layers::Ipv4)
    } else if code == 0x86DD {
        Some(Layers::Ipv6)
    } else if code == 0x8100 {
        Some(Layers::Vlan)
    } else if code == 0x0806 {
        Some(Layers::Arp)
    } else {
        None
    }
}

/// IP protocol number announcing a child of the given kind under IPv4.
pub open spec fn ipv4_code(k: Layers) -> Option<u8> {
    match k {
        Layers::Udp => Some(17u8),
        Layers::Tcp => Some(6u8),
        Layers::Icmp => Some(1u8),
        _ => None,
    }
}

/// Kind selected by the protocol field of an IPv4 header.
pub open spec fn ipv4_kind(code: u8) -> Option<Layers> {
    if code == 17 {
        Some(Layers::Udp)
    } else if code == 6 {
        Some(Layers::Tcp)
    } else if code == 1 {
        Some(Layers::Icmp)
    } else {
        None
    }
}

/// Next-header number announcing a child of the given kind under IPv6.
pub open spec fn ipv6_code(k: Layers) -> Option<u8> {
    match k {
        Layers::Udp => Some(17u8),
        Layers::Tcp => Some(6u8),
        _ => None,
    }
}

/// Kind selected by the next-header field of an IPv6 header.
pub open spec fn ipv6_kind(code: u8) -> Option<Layers> {
    if code == 17 {
        Some(Layers::Udp)
    } else if code == 6 {
        Some(Layers::Tcp)
    } else {
        None
    }
}

impl Layers {
    pub fn minimum_size(&self) -> (r: usize)
        ensures
            r == min_size(*self),
    {
        match self {
            Layers::Ether => 14,
            Layers::Vlan => 4,
            Layers::Arp => 28,
            Layers::Ipv4 => 20,
            Layers::Ipv6 => 40,
            Layers::Icmp => 4,
            Layers::Udp => 8,
            Layers::Tcp => 20,
            Layers::Payload => 0,
        }
    }

    /// Looks up the allowed-successor table.
    pub fn allows_child(&self, child: &Layers) -> (r: bool)
        ensures
            r == allows(*self, *child),
    {
        match self {
            Layers::Ether | Layers::Vlan => match child {
                Layers::Vlan | Layers::Ipv4 | Layers::Ipv6 | Layers::Arp => true,
                _ => false,
            },
            Layers::Ipv4 => match child {
                Layers::Udp | Layers::Tcp | Layers::Icmp => true,
                _ => false,
            },
            Layers::Ipv6 => match child {
                Layers::Udp | Layers::Tcp => true,
                _ => false,
            },
            Layers::Udp | Layers::Tcp => match child {
                Layers::Payload => true,
                _ => false,
            },
            _ => false,
        }
    }

    /// Looks up the reorder-pair table.
    pub fn reorders_with(&self, existing: &Layers, inserted: &Layers) -> (r: bool)
        ensures
            r == reorders(*self, *existing, *inserted),
    {
        match self {
            Layers::Ether | Layers::Vlan => match (existing, inserted) {
                (Layers::Ipv4, Layers::Vlan) | (Layers::Arp, Layers::Vlan) | (
                    Layers::Ipv6,
                    Layers::Vlan,
                ) => true,
                _ => false,
            },
            _ => false,
        }
    }

    pub fn link_code(&self) -> (r: Option<u16>)
        ensures
            r == link_code(*self),
    {
        match self {
            Layers::Ipv4 => Some(0x0800u16),
            Layers::Ipv6 => Some(0x86DDu16),
            Layers::Vlan => Some(0x8100u16),
            Layers::Arp => Some(0x0806u16),
            _ => None,
        }
    }

    pub fn ipv4_code(&self) -> (r: Option<u8>)
        ensures
            r == ipv4_code(*self),
    {
        match self {
            Layers::Udp => Some(17u8),
            Layers::Tcp => Some(6u8),
            Layers::Icmp => Some(1u8),
            _ => None,
        }
    }

    pub fn ipv6_code(&self) -> (r: Option<u8>)
        ensures
            r == ipv6_code(*self),
    {
        match self {
            Layers::Udp => Some(17u8),
            Layers::Tcp => Some(6u8),
            _ => None,
        }
    }
}

pub fn kind_of_link_code(code: u16) -> (r: Option<Layers>)
    ensures
        r == link_kind(code),
{
    if code == 0x0800 {
        Some(Layers::Ipv4)
    } else if code == 0x86DD {
        Some(Layers::Ipv6)
    } else if code == 0x8100 {
        Some(Layers::Vlan)
    } else if code == 0x0806 {
        Some(Layers::Arp)
    } else {
        None
    }
}

pub fn kind_of_ipv4_code(code: u8) -> (r: Option<Layers>)
    ensures
        r == ipv4_kind(code),
{
    if code == 17 {
        Some(Layers::Udp)
    } else if code == 6 {
        Some(Layers::Tcp)
    } else if code == 1 {
        Some(Layers::Icmp)
    } else {
        None
    }
}

pub fn kind_of_ipv6_code(code: u8) -> (r: Option<Layers>)
    ensures
        r == ipv6_kind(code),
{
    if code == 17 {
        Some(Layers::Udp)
    } else if code == 6 {
        Some(Layers::Tcp)
    } else {
        None
    }
}

} // verus!
