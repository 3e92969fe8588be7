//! Read-only, zero-copy views of a layer inside a borrowed buffer.
use vstd::prelude::*;
use vstd::slice::slice_subrange;

use crate::bytes::{be16, read16};
use crate::kinds::{
    ipv4_kind, ipv6_kind, kind_of_ipv4_code, kind_of_ipv6_code, kind_of_link_code, link_kind,
    Layers,
};
use crate::layers::{
    copy_bytes, ArpMut, EtherMut, Header, IcmpMut, Ipv4Mut, Ipv6Mut, PayloadMut, TcpMut, UdpMut,
    VlanMut,
};
use crate::parse::parse_stack;

verus! {

/// Fixed header length at which the next layer starts, for kinds that carry one.
pub open spec fn view_header_len(k: Layers) -> Option<int> {
    match k {
        Layers::Ether => Some(14),
        Layers::Vlan => Some(4),
        Layers::Ipv4 => Some(20),
        Layers::Ipv6 => Some(40),
        Layers::Udp => Some(8),
        Layers::Tcp => Some(20),
        _ => None,
    }
}

/// Kind of the layer that follows a header of kind `k` at the start of `b`.
pub open spec fn view_next(k: Layers, b: Seq<u8>) -> Option<Layers> {
    match k {
        Layers::Ether => link_kind(be16(b, 12)),
        Layers::Vlan => link_kind(be16(b, 2)),
        Layers::Ipv4 => ipv4_kind(b[9]),
        Layers::Ipv6 => ipv6_kind(b[6]),
        Layers::Udp | Layers::Tcp => Some(Layers::Payload),
        _ => None,
    }
}

/// The first layer of kind `target` above a header of kind `k` at the start of `b`: its kind
/// and the bytes from its start to the end of `b`.
pub open spec fn locate(k: Layers, b: Seq<u8>, target: Layers) -> Option<Header>
    decreases b.len(),
{
    match view_header_len(k) {
        None => None,
        Some(hl) => if b.len() < hl {
            None
        } else {
            let rest = b.subrange(hl, b.len() as int);
            match view_next(k, b) {
                None => None,
                Some(c) => if c == target {
                    Some((c, rest))
                } else {
                    locate(c, rest, target)
                },
            }
        },
    }
}

/// A read-only layer of any kind, borrowing its bytes.
#[derive(Debug)]
pub enum Layer<'a> {
    Ether(Ether<'a>),
    Vlan(Vlan<'a>),
    Arp(Arp<'a>),
    Ipv4(Ipv4<'a>),
    Ipv6(Ipv6<'a>),
    Icmp(Icmp<'a>),
    Udp(Udp<'a>),
    Tcp(Tcp<'a>),
    Payload(Payload<'a>),
}

impl<'a> Layer<'a> {
    /// The kind of the layer and the bytes it sees.
    pub open(crate) spec fn header(&self) -> Header {
        match self {
            Layer::Ether(x) => (Layers::Ether, x.buf@),
            Layer::Vlan(x) => (Layers::Vlan, x.buf@),
            Layer::Arp(x) => (Layers::Arp, x.buf@),
            Layer::Ipv4(x) => (Layers::Ipv4, x.buf@),
            Layer::Ipv6(x) => (Layers::Ipv6, x.buf@),
            Layer::Icmp(x) => (Layers::Icmp, x.buf@),
            Layer::Udp(x) => (Layers::Udp, x.buf@),
            Layer::Tcp(x) => (Layers::Tcp, x.buf@),
            Layer::Payload(x) => (Layers::Payload, x.buf@),
        }
    }
}

fn view_of<'a>(k: Layers, buf: &'a [u8]) -> (r: Layer<'a>)
    ensures
        r.header() == (k, buf@),
{
    match k {
        Layers::Ether => Layer::Ether(Ether { buf }),
        Layers::Vlan => Layer::Vlan(Vlan { buf }),
        Layers::Arp => Layer::Arp(Arp { buf }),
        Layers::Ipv4 => Layer::Ipv4(Ipv4 { buf }),
        Layers::Ipv6 => Layer::Ipv6(Ipv6 { buf }),
        Layers::Icmp => Layer::Icmp(Icmp { buf }),
        Layers::Udp => Layer::Udp(Udp { buf }),
        Layers::Tcp => Layer::Tcp(Tcp { buf }),
        Layers::Payload => Layer::Payload(Payload { buf }),
    }
}

/// Finds the first layer of kind `target` above a header of kind `k` at the start of `buf`.
pub fn locate_in<'a>(k: Layers, buf: &'a [u8], target: Layers) -> (r: Option<Layer<'a>>)
    ensures
        match r {
            Some(l) => locate(k, buf@, target) == Some(l.header()),
            None => locate(k, buf@, target) is None,
        },
    decreases buf@.len(),
{
    let hl: usize = match k {
        Layers::Ether => 14,
        Layers::Vlan => 4,
        Layers::Ipv4 => 20,
        Layers::Ipv6 => 40,
        Layers::Udp => 8,
        Layers::Tcp => 20,
        _ => {
            return None;
        },
    };
    if buf.len() < hl {
        return None;
    }
    let rest = slice_subrange(buf, hl, buf.len());
    let next = match k {
        Layers::Ether => kind_of_link_code(read16(buf, 12)),
        Layers::Vlan => kind_of_link_code(read16(buf, 2)),
        Layers::Ipv4 => kind_of_ipv4_code(buf[9]),
        Layers::Ipv6 => kind_of_ipv6_code(buf[6]),
        _ => Some(Layers::Payload),
    };
    match next {
        None => None,
        Some(c) => if c == target {
            Some(view_of(c, rest))
        } else {
            locate_in(c, rest, target)
        },
    }
}

/// Read-only representation of an Ethernet layer, borrowing the bytes from its header onward.
#[derive(Debug)]
pub struct Ether<'a> {
    pub(crate) buf: &'a [u8],
}

impl<'a> Ether<'a> {
    /// The bytes this view borrows, as a sequence.
    pub open(crate) spec fn bytes(&self) -> Seq<u8> {
        self.buf@
    }

    /// A view of `buf` as an Ethernet layer.
    pub fn new(buf: &'a [u8]) -> (r: Self)
        ensures
            r.bytes() == buf@,
    {
        Ether { buf }
    }

    /// The bytes this view borrows.
    pub fn get_buf(&self) -> (r: &[u8])
        ensures
            r@ == self.bytes(),
    {
        self.buf
    }

    /// An owned, mutable copy of the chain decoded from these bytes: see `parse_stack`.
    pub fn as_mut(&self) -> (r: Option<EtherMut>)
        ensures
            r is Some <==> parse_stack(Layers::Ether, self.bytes()) is Some,
            r is Some ==> parse_stack(Layers::Ether, self.bytes()) == Some(r.unwrap().stack()),
    {
        EtherMut::from_buf(copy_bytes(self.buf))
    }

    /// The first layer of kind `layer` above this one, viewed in place.
    pub fn get_layer(&self, layer: Layers) -> (r: Option<Layer<'a>>)
        ensures
            match r {
                Some(l) => locate(Layers::Ether, self.bytes(), layer) == Some(l.header()),
                None => locate(Layers::Ether, self.bytes(), layer) is None,
            },
    {
        locate_in(Layers::Ether, self.buf, layer)
    }

    /// The first layer of kind `layer` above an Ethernet header at the start of `buf`.
    pub fn get_layer_from_buf(buf: &[u8], layer: Layers) -> (r: Option<Layer<'_>>)
        ensures
            match r {
                Some(l) => locate(Layers::Ether, buf@, layer) == Some(l.header()),
                None => locate(Layers::Ether, buf@, layer) is None,
            },
    {
        locate_in(Layers::Ether, buf, layer)
    }
}

/// Read-only representation of a VLAN layer, borrowing the bytes from its header onward.
#[derive(Debug)]
pub struct Vlan<'a> {
    pub(crate) buf: &'a [u8],
}

impl<'a> Vlan<'a> {
    /// The bytes this view borrows, as a sequence.
    pub open(crate) spec fn bytes(&self) -> Seq<u8> {
        self.buf@
    }

    /// A view of `buf` as a VLAN layer.
    pub fn new(buf: &'a [u8]) -> (r: Self)
        ensures
            r.bytes() == buf@,
    {
        Vlan { buf }
    }

    /// The bytes this view borrows.
    pub fn get_buf(&self) -> (r: &[u8])
        ensures
            r@ == self.bytes(),
    {
        self.buf
    }

    /// An owned, mutable copy of the chain decoded from these bytes: see `parse_stack`.
    pub fn as_mut(&self) -> (r: Option<VlanMut>)
        ensures
            r is Some <==> parse_stack(Layers::Vlan, self.bytes()) is Some,
            r is Some ==> parse_stack(Layers::Vlan, self.bytes()) == Some(r.unwrap().stack()),
    {
        VlanMut::from_buf(copy_bytes(self.buf))
    }

    /// The first layer of kind `layer` above this one, viewed in place.
    pub fn get_layer(&self, layer: Layers) -> (r: Option<Layer<'a>>)
        ensures
            match r {
                Some(l) => locate(Layers::Vlan, self.bytes(), layer) == Some(l.header()),
                None => locate(Layers::Vlan, self.bytes(), layer) is None,
            },
    {
        locate_in(Layers::Vlan, self.buf, layer)
    }

    /// The first layer of kind `layer` above a VLAN header at the start of `buf`.
    pub fn get_layer_from_buf(buf: &[u8], layer: Layers) -> (r: Option<Layer<'_>>)
        ensures
            match r {
                Some(l) => locate(Layers::Vlan, buf@, layer) == Some(l.header()),
                None => locate(Layers::Vlan, buf@, layer) is None,
            },
    {
        locate_in(Layers::Vlan, buf, layer)
    }
}

/// Read-only representation of an ARP layer, borrowing the bytes from its header onward.
#[derive(Debug)]
pub struct Arp<'a> {
    pub(crate) buf: &'a [u8],
}

impl<'a> Arp<'a> {
    /// The bytes this view borrows, as a sequence.
    pub open(crate) spec fn bytes(&self) -> Seq<u8> {
        self.buf@
    }

    /// A view of `buf` as an ARP layer.
    pub fn new(buf: &'a [u8]) -> (r: Self)
        ensures
            r.bytes() == buf@,
    {
        Arp { buf }
    }

    /// The bytes this view borrows.
    pub fn get_buf(&self) -> (r: &[u8])
        ensures
            r@ == self.bytes(),
    {
        self.buf
    }

    /// An owned, mutable copy of the chain decoded from these bytes: see `parse_stack`.
    pub fn as_mut(&self) -> (r: Option<ArpMut>)
        ensures
            r is Some <==> parse_stack(Layers::Arp, self.bytes()) is Some,
            r is Some ==> parse_stack(Layers::Arp, self.bytes()) == Some(r.unwrap().stack()),
    {
        ArpMut::from_buf(copy_bytes(self.buf))
    }

    /// The first layer of kind `layer` above this one, viewed in place.
    pub fn get_layer(&self, layer: Layers) -> (r: Option<Layer<'a>>)
        ensures
            match r {
                Some(l) => locate(Layers::Arp, self.bytes(), layer) == Some(l.header()),
                None => locate(Layers::Arp, self.bytes(), layer) is None,
            },
    {
        locate_in(Layers::Arp, self.buf, layer)
    }

    /// The first layer of kind `layer` above an ARP header at the start of `buf`.
    pub fn get_layer_from_buf(buf: &[u8], layer: Layers) -> (r: Option<Layer<'_>>)
        ensures
            match r {
                Some(l) => locate(Layers::Arp, buf@, layer) == Some(l.header()),
                None => locate(Layers::Arp, buf@, layer) is None,
            },
    {
        locate_in(Layers::Arp, buf, layer)
    }
}

/// Read-only representation of an IPv4 layer, borrowing the bytes from its header onward.
#[derive(Debug)]
pub struct Ipv4<'a> {
    pub(crate) buf: &'a [u8],
}

impl<'a> Ipv4<'a> {
    /// The bytes this view borrows, as a sequence.
    pub open(crate) spec fn bytes(&self) -> Seq<u8> {
        self.buf@
    }

    /// A view of `buf` as an IPv4 layer.
    pub fn new(buf: &'a [u8]) -> (r: Self)
        ensures
            r.bytes() == buf@,
    {
        Ipv4 { buf }
    }

    /// The bytes this view borrows.
    pub fn get_buf(&self) -> (r: &[u8])
        ensures
            r@ == self.bytes(),
    {
        self.buf
    }

    /// An owned, mutable copy of the chain decoded from these bytes: see `parse_stack`.
    pub fn as_mut(&self) -> (r: Option<Ipv4Mut>)
        ensures
            r is Some <==> parse_stack(Layers::Ipv4, self.bytes()) is Some,
            r is Some ==> parse_stack(Layers::Ipv4, self.bytes()) == Some(r.unwrap().stack()),
    {
        Ipv4Mut::from_buf(copy_bytes(self.buf))
    }

    /// The first layer of kind `layer` above this one, viewed in place.
    pub fn get_layer(&self, layer: Layers) -> (r: Option<Layer<'a>>)
        ensures
            match r {
                Some(l) => locate(Layers::Ipv4, self.bytes(), layer) == Some(l.header()),
                None => locate(Layers::Ipv4, self.bytes(), layer) is None,
            },
    {
        locate_in(Layers::Ipv4, self.buf, layer)
    }

    /// The first layer of kind `layer` above an IPv4 header at the start of `buf`.
    pub fn get_layer_from_buf(buf: &[u8], layer: Layers) -> (r: Option<Layer<'_>>)
        ensures
            match r {
                Some(l) => locate(Layers::Ipv4, buf@, layer) == Some(l.header()),
                None => locate(Layers::Ipv4, buf@, layer) is None,
            },
    {
        locate_in(Layers::Ipv4, buf, layer)
    }
}

/// Read-only representation of an IPv6 layer, borrowing the bytes from its header onward.
#[derive(Debug)]
pub struct Ipv6<'a> {
    pub(crate) buf: &'a [u8],
}

impl<'a> Ipv6<'a> {
    /// The bytes this view borrows, as a sequence.
    pub open(crate) spec fn bytes(&self) -> Seq<u8> {
        self.buf@
    }

    /// A view of `buf` as an IPv6 layer.
    pub fn new(buf: &'a [u8]) -> (r: Self)
        ensures
            r.bytes() == buf@,
    {
        Ipv6 { buf }
    }

    /// The bytes this view borrows.
    pub fn get_buf(&self) -> (r: &[u8])
        ensures
            r@ == self.bytes(),
    {
        self.buf
    }

    /// An owned, mutable copy of the chain decoded from these bytes: see `parse_stack`.
    pub fn as_mut(&self) -> (r: Option<Ipv6Mut>)
        ensures
            r is Some <==> parse_stack(Layers::Ipv6, self.bytes()) is Some,
            r is Some ==> parse_stack(Layers::Ipv6, self.bytes()) == Some(r.unwrap().stack()),
    {
        Ipv6Mut::from_buf(copy_bytes(self.buf))
    }

    /// The first layer of kind `layer` above this one, viewed in place.
    pub fn get_layer(&self, layer: Layers) -> (r: Option<Layer<'a>>)
        ensures
            match r {
                Some(l) => locate(Layers::Ipv6, self.bytes(), layer) == Some(l.header()),
                None => locate(Layers::Ipv6, self.bytes(), layer) is None,
            },
    {
        locate_in(Layers::Ipv6, self.buf, layer)
    }

    /// The first layer of kind `layer` above an IPv6 header at the start of `buf`.
    pub fn get_layer_from_buf(buf: &[u8], layer: Layers) -> (r: Option<Layer<'_>>)
        ensures
            match r {
                Some(l) => locate(Layers::Ipv6, buf@, layer) == Some(l.header()),
                None => locate(Layers::Ipv6, buf@, layer) is None,
            },
    {
        locate_in(Layers::Ipv6, buf, layer)
    }
}

/// Read-only representation of an ICMP layer, borrowing the bytes from its header onward.
#[derive(Debug)]
pub struct Icmp<'a> {
    pub(crate) buf: &'a [u8],
}

impl<'a> Icmp<'a> {
    /// The bytes this view borrows, as a sequence.
    pub open(crate) spec fn bytes(&self) -> Seq<u8> {
        self.buf@
    }

    /// A view of `buf` as an ICMP layer.
    pub fn new(buf: &'a [u8]) -> (r: Self)
        ensures
            r.bytes() == buf@,
    {
        Icmp { buf }
    }

    /// The bytes this view borrows.
    pub fn get_buf(&self) -> (r: &[u8])
        ensures
            r@ == self.bytes(),
    {
        self.buf
    }

    /// An owned, mutable copy of the chain decoded from these bytes: see `parse_stack`.
    pub fn as_mut(&self) -> (r: Option<IcmpMut>)
        ensures
            r is Some <==> parse_stack(Layers::Icmp, self.bytes()) is Some,
            r is Some ==> parse_stack(Layers::Icmp, self.bytes()) == Some(r.unwrap().stack()),
    {
        IcmpMut::from_buf(copy_bytes(self.buf))
    }

    /// The first layer of kind `layer` above this one, viewed in place.
    pub fn get_layer(&self, layer: Layers) -> (r: Option<Layer<'a>>)
        ensures
            match r {
                Some(l) => locate(Layers::Icmp, self.bytes(), layer) == Some(l.header()),
                None => locate(Layers::Icmp, self.bytes(), layer) is None,
            },
    {
        locate_in(Layers::Icmp, self.buf, layer)
    }

    /// The first layer of kind `layer` above an ICMP header at the start of `buf`.
    pub fn get_layer_from_buf(buf: &[u8], layer: Layers) -> (r: Option<Layer<'_>>)
        ensures
            match r {
                Some(l) => locate(Layers::Icmp, buf@, layer) == Some(l.header()),
                None => locate(Layers::Icmp, buf@, layer) is None,
            },
    {
        locate_in(Layers::Icmp, buf, layer)
    }
}

/// Read-only representation of a UDP layer, borrowing the bytes from its header onward.
#[derive(Debug)]
pub struct Udp<'a> {
    pub(crate) buf: &'a [u8],
}

impl<'a> Udp<'a> {
    /// The bytes this view borrows, as a sequence.
    pub open(crate) spec fn bytes(&self) -> Seq<u8> {
        self.buf@
    }

    /// A view of `buf` as a UDP layer.
    pub fn new(buf: &'a [u8]) -> (r: Self)
        ensures
            r.bytes() == buf@,
    {
        Udp { buf }
    }

    /// The bytes this view borrows.
    pub fn get_buf(&self) -> (r: &[u8])
        ensures
            r@ == self.bytes(),
    {
        self.buf
    }

    /// An owned, mutable copy of the chain decoded from these bytes: see `parse_stack`.
    pub fn as_mut(&self) -> (r: Option<UdpMut>)
        ensures
            r is Some <==> parse_stack(Layers::Udp, self.bytes()) is Some,
            r is Some ==> parse_stack(Layers::Udp, self.bytes()) == Some(r.unwrap().stack()),
    {
        UdpMut::from_buf(copy_bytes(self.buf))
    }

    /// The first layer of kind `layer` above this one, viewed in place.
    pub fn get_layer(&self, layer: Layers) -> (r: Option<Layer<'a>>)
        ensures
            match r {
                Some(l) => locate(Layers::Udp, self.bytes(), layer) == Some(l.header()),
                None => locate(Layers::Udp, self.bytes(), layer) is None,
            },
    {
        locate_in(Layers::Udp, self.buf, layer)
    }

    /// The first layer of kind `layer` above a UDP header at the start of `buf`.
    pub fn get_layer_from_buf(buf: &[u8], layer: Layers) -> (r: Option<Layer<'_>>)
        ensures
            match r {
                Some(l) => locate(Layers::Udp, buf@, layer) == Some(l.header()),
                None => locate(Layers::Udp, buf@, layer) is None,
            },
    {
        locate_in(Layers::Udp, buf, layer)
    }
}

/// Read-only representation of a TCP layer, borrowing the bytes from its header onward.
#[derive(Debug)]
pub struct Tcp<'a> {
    pub(crate) buf: &'a [u8],
}

impl<'a> Tcp<'a> {
    /// The bytes this view borrows, as a sequence.
    pub open(crate) spec fn bytes(&self) -> Seq<u8> {
        self.buf@
    }

    /// A view of `buf` as a TCP layer.
    pub fn new(buf: &'a [u8]) -> (r: Self)
        ensures
            r.bytes() == buf@,
    {
        Tcp { buf }
    }

    /// The bytes this view borrows.
    pub fn get_buf(&self) -> (r: &[u8])
        ensures
            r@ == self.bytes(),
    {
        self.buf
    }

    /// An owned, mutable copy of the chain decoded from these bytes: see `parse_stack`.
    pub fn as_mut(&self) -> (r: Option<TcpMut>)
        ensures
            r is Some <==> parse_stack(Layers::Tcp, self.bytes()) is Some,
            r is Some ==> parse_stack(Layers::Tcp, self.bytes()) == Some(r.unwrap().stack()),
    {
        TcpMut::from_buf(copy_bytes(self.buf))
    }

    /// The first layer of kind `layer` above this one, viewed in place.
    pub fn get_layer(&self, layer: Layers) -> (r: Option<Layer<'a>>)
        ensures
            match r {
                Some(l) => locate(Layers::Tcp, self.bytes(), layer) == Some(l.header()),
                None => locate(Layers::Tcp, self.bytes(), layer) is None,
            },
    {
        locate_in(Layers::Tcp, self.buf, layer)
    }

    /// The first layer of kind `layer` above a TCP header at the start of `buf`.
    pub fn get_layer_from_buf(buf: &[u8], layer: Layers) -> (r: Option<Layer<'_>>)
        ensures
            match r {
                Some(l) => locate(Layers::Tcp, buf@, layer) == Some(l.header()),
                None => locate(Layers::Tcp, buf@, layer) is None,
            },
    {
        locate_in(Layers::Tcp, buf, layer)
    }
}

/// Read-only representation of a payload layer, borrowing the bytes from its header onward.
#[derive(Debug)]
pub struct Payload<'a> {
    pub(crate) buf: &'a [u8],
}

impl<'a> Payload<'a> {
    /// The bytes this view borrows, as a sequence.
    pub open(crate) spec fn bytes(&self) -> Seq<u8> {
        self.buf@
    }

    /// A view of `buf` as a payload layer.
    pub fn new(buf: &'a [u8]) -> (r: Self)
        ensures
            r.bytes() == buf@,
    {
        Payload { buf }
    }

    /// The bytes this view borrows.
    pub fn get_buf(&self) -> (r: &[u8])
        ensures
            r@ == self.bytes(),
    {
        self.buf
    }

    /// An owned, mutable copy of the chain decoded from these bytes: see `parse_stack`.
    pub fn as_mut(&self) -> (r: Option<PayloadMut>)
        ensures
            r is Some <==> parse_stack(Layers::Payload, self.bytes()) is Some,
            r is Some ==> parse_stack(Layers::Payload, self.bytes()) == Some(r.unwrap().stack()),
    {
        PayloadMut::from_buf(copy_bytes(self.buf))
    }

    /// The first layer of kind `layer` above this one, viewed in place.
    pub fn get_layer(&self, layer: Layers) -> (r: Option<Layer<'a>>)
        ensures
            match r {
                Some(l) => locate(Layers::Payload, self.bytes(), layer) == Some(l.header()),
                None => locate(Layers::Payload, self.bytes(), layer) is None,
            },
    {
        locate_in(Layers::Payload, self.buf, layer)
    }

    /// The first layer of kind `layer` above a payload header at the start of `buf`.
    pub fn get_layer_from_buf(buf: &[u8], layer: Layers) -> (r: Option<Layer<'_>>)
        ensures
            match r {
                Some(l) => locate(Layers::Payload, buf@, layer) == Some(l.header()),
                None => locate(Layers::Payload, buf@, layer) is None,
            },
    {
        locate_in(Layers::Payload, buf, layer)
    }
}

} // verus!
