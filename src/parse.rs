//! Decoding bytes into a chain, top-down, guided by each header's next-protocol field.
use vstd::prelude::*;

use crate::bytes::{be16, read16};
use crate::kinds::{
    ipv4_kind, ipv6_kind, kind_of_ipv4_code, kind_of_ipv6_code, kind_of_link_code, link_kind,
    min_size, Layers,
};
use crate::layers::{
    headers_wf, upper_stack, ArpMut, EtherMut, Header, IcmpMut, Ipv4Mut, Ipv6Mut, LayerMut,
    PayloadMut, TcpMut, UdpMut, VlanMut,
};
use crate::serialize::ipv4_header_len;

verus! {

/// Header length of a TCP header: its data offset, kept between the minimum header size and
/// the buffer's length.
pub open spec fn tcp_header_len(b: Seq<u8>) -> int {
    let l = (b[12] as int / 16) * 4;
    if l < 20 {
        20
    } else if l > b.len() {
        b.len() as int
    } else {
        l
    }
}

/// End of the bytes that a header declaring `declared` bytes in all, header included, covers:
/// whatever lies beyond it is padding.
pub open spec fn declared_end(b: Seq<u8>, hl: int, declared: int) -> int {
    let e = if declared < hl { hl } else { declared };
    if e > b.len() { b.len() as int } else { e }
}

/// How a header of kind `k` at the start of `b` divides it: the header's length, the end of
/// its child's bytes, and the kind of its child, if any is recognised.
pub open spec fn layout(k: Layers, b: Seq<u8>) -> (int, int, Option<Layers>) {
    match k {
        Layers::Ether => (14, b.len() as int, link_kind(be16(b, 12))),
        Layers::Vlan => (4, b.len() as int, link_kind(be16(b, 2))),
        Layers::Ipv4 => {
            let hl = ipv4_header_len(b);
            (hl, declared_end(b, hl, be16(b, 2) as int), ipv4_kind(b[9]))
        },
        Layers::Ipv6 => (40, declared_end(b, 40, 40 + be16(b, 4) as int), ipv6_kind(b[6])),
        Layers::Udp => (
            8,
            b.len() as int,
            if b.len() > 8 { Some(Layers::Payload) } else { None },
        ),
        Layers::Tcp => (
            tcp_header_len(b),
            b.len() as int,
            if b.len() > tcp_header_len(b) { Some(Layers::Payload) } else { None },
        ),
        _ => (b.len() as int, b.len() as int, None),
    }
}

pub proof fn lemma_layout_bounds(k: Layers, b: Seq<u8>)
    requires
        b.len() >= min_size(k),
    ensures
        min_size(k) <= layout(k, b).0 <= layout(k, b).1 <= b.len(),
        layout(k, b).2 is Some ==> layout(k, b).0 > 0,
{
}

/// The chain decoded from `b` as a layer of kind `k`; `None` where some layer is shorter than
/// its kind's minimum.
pub open spec fn parse_stack(k: Layers, b: Seq<u8>) -> Option<Seq<Header>>
    decreases b.len(),
{
    if b.len() < min_size(k) {
        None
    } else {
        let (hl, end, ck) = layout(k, b);
        let h = b.subrange(0, hl);
        match ck {
            None => Some(seq![(k, h)]),
            Some(c) => {
                if 0 < hl <= end <= b.len() {
                    match parse_stack(c, b.subrange(hl, end)) {
                        None => None,
                        Some(t) => Some(seq![(k, h)] + t),
                    }
                } else {
                    None
                }
            },
        }
    }
}

fn layout_of(k: Layers, b: &[u8]) -> (r: (usize, usize, Option<Layers>))
    requires
        b@.len() >= min_size(k),
    ensures
        r.0 as int == layout(k, b@).0,
        r.1 as int == layout(k, b@).1,
        r.2 == layout(k, b@).2,
{
    let n = b.len();
    match k {
        Layers::Ether => (14, n, kind_of_link_code(read16(b, 12))),
        Layers::Vlan => (4, n, kind_of_link_code(read16(b, 2))),
        Layers::Ipv4 => {
            let l = (b[0] % 16) as usize * 4;
            let hl = if l < 20 { 20 } else if l > n { n } else { l };
            let t = read16(b, 2) as usize;
            let e = if t < hl { hl } else { t };
            let end = if e > n { n } else { e };
            (hl, end, kind_of_ipv4_code(b[9]))
        },
        Layers::Ipv6 => {
            let t = 40 + read16(b, 4) as usize;
            let end = if t > n { n } else { t };
            (40, end, kind_of_ipv6_code(b[6]))
        },
        Layers::Udp => (8, n, if n > 8 { Some(Layers::Payload) } else { None }),
        Layers::Tcp => {
            let l = (b[12] / 16) as usize * 4;
            let hl = if l < 20 { 20 } else if l > n { n } else { l };
            (hl, n, if n > hl { Some(Layers::Payload) } else { None })
        },
        _ => (n, n, None),
    }
}

/// A layer of kind `k` holding `buf`, with `upper` above it.
fn make_layer(k: Layers, buf: Vec<u8>, upper: Option<Box<LayerMut>>) -> (r: LayerMut)
    requires
        k == Layers::Ether || k == Layers::Vlan || k == Layers::Ipv4 || k == Layers::Ipv6 || k
            == Layers::Udp || k == Layers::Tcp || upper is None,
    ensures
        r.stack() == seq![(k, buf@)] + upper_stack(upper),
{
    let r = match k {
        Layers::Ether => LayerMut::Ether(EtherMut { buf, upper_layer: upper }),
        Layers::Vlan => LayerMut::Vlan(VlanMut { buf, upper_layer: upper }),
        Layers::Arp => LayerMut::Arp(ArpMut { buf }),
        Layers::Ipv4 => LayerMut::Ipv4(Ipv4Mut { buf, upper_layer: upper }),
        Layers::Ipv6 => LayerMut::Ipv6(Ipv6Mut { buf, upper_layer: upper }),
        Layers::Icmp => LayerMut::Icmp(IcmpMut { buf }),
        Layers::Udp => LayerMut::Udp(UdpMut { buf, upper_layer: upper }),
        Layers::Tcp => LayerMut::Tcp(TcpMut { buf, upper_layer: upper }),
        Layers::Payload => LayerMut::Payload(PayloadMut { buf }),
    };
    assert(r.stack() =~= seq![(k, buf@)] + upper_stack(upper));
    r
}

/// Decodes `buf` as a layer of kind `k` and everything it carries. Trailing bytes beyond the
/// length a header declares are padding and are dropped.
pub fn parse_layer(k: Layers, buf: Vec<u8>) -> (r: Option<LayerMut>)
    ensures
        opt_stack(r) == parse_stack(k, buf@),
        r is Some ==> r.unwrap().stack()[0].0 == k && r.unwrap().wf(),
    decreases buf@.len(),
{
    let ghost b = buf@;
    if buf.len() < k.minimum_size() {
        return None;
    }
    let (hl, end, ck) = layout_of(k, buf.as_slice());
    proof {
        lemma_layout_bounds(k, b);
    }
    let mut buf = buf;
    buf.truncate(end);
    let body = buf.split_off(hl);
    assert(buf@ == b.subrange(0, hl as int));
    assert(body@ == b.subrange(hl as int, end as int));
    let upper = match ck {
        None => None,
        Some(c) => match parse_layer(c, body) {
            None => {
                return None;
            },
            Some(l) => Some(Box::new(l)),
        },
    };
    let r = make_layer(k, buf, upper);
    proof {
        let s = r.stack();
        assert forall|i: int| 0 <= i < s.len() implies (#[trigger] s[i]).1.len() >= min_size(s[i].0) by {
            if i > 0 {
                assert(s[i] == upper_stack(upper)[i - 1]);
            }
        }
    }
    Some(r)
}

pub open spec fn opt_stack(r: Option<LayerMut>) -> Option<Seq<Header>> {
    match r {
        Some(l) => Some(l.stack()),
        None => None,
    }
}


impl EtherMut {
    /// Decodes `buf` as an Ether layer and everything it carries: see `parse_stack`.
    pub fn from_buf(buf: Vec<u8>) -> (r: Option<Self>)
        ensures
            r is Some <==> parse_stack(Layers::Ether, buf@) is Some,
            r is Some ==> parse_stack(Layers::Ether, buf@) == Some(r.unwrap().stack()) && r.unwrap().wf(),
    {
        match parse_layer(Layers::Ether, buf) {
            Some(LayerMut::Ether(x)) => Some(x),
            _ => None,
        }
    }
}

impl VlanMut {
    /// Decodes `buf` as a Vlan layer and everything it carries: see `parse_stack`.
    pub fn from_buf(buf: Vec<u8>) -> (r: Option<Self>)
        ensures
            r is Some <==> parse_stack(Layers::Vlan, buf@) is Some,
            r is Some ==> parse_stack(Layers::Vlan, buf@) == Some(r.unwrap().stack()) && r.unwrap().wf(),
    {
        match parse_layer(Layers::Vlan, buf) {
            Some(LayerMut::Vlan(x)) => Some(x),
            _ => None,
        }
    }
}

impl ArpMut {
    /// Decodes `buf` as an Arp layer and everything it carries: see `parse_stack`.
    pub fn from_buf(buf: Vec<u8>) -> (r: Option<Self>)
        ensures
            r is Some <==> parse_stack(Layers::Arp, buf@) is Some,
            r is Some ==> parse_stack(Layers::Arp, buf@) == Some(r.unwrap().stack()) && r.unwrap().wf(),
    {
        match parse_layer(Layers::Arp, buf) {
            Some(LayerMut::Arp(x)) => Some(x),
            _ => None,
        }
    }
}

impl Ipv4Mut {
    /// Decodes `buf` as an Ipv4 layer and everything it carries: see `parse_stack`.
    pub fn from_buf(buf: Vec<u8>) -> (r: Option<Self>)
        ensures
            r is Some <==> parse_stack(Layers::Ipv4, buf@) is Some,
            r is Some ==> parse_stack(Layers::Ipv4, buf@) == Some(r.unwrap().stack()) && r.unwrap().wf(),
    {
        match parse_layer(Layers::Ipv4, buf) {
            Some(LayerMut::Ipv4(x)) => Some(x),
            _ => None,
        }
    }
}

impl Ipv6Mut {
    /// Decodes `buf` as an Ipv6 layer and everything it carries: see `parse_stack`.
    pub fn from_buf(buf: Vec<u8>) -> (r: Option<Self>)
        ensures
            r is Some <==> parse_stack(Layers::Ipv6, buf@) is Some,
            r is Some ==> parse_stack(Layers::Ipv6, buf@) == Some(r.unwrap().stack()) && r.unwrap().wf(),
    {
        match parse_layer(Layers::Ipv6, buf) {
            Some(LayerMut::Ipv6(x)) => Some(x),
            _ => None,
        }
    }
}

impl IcmpMut {
    /// Decodes `buf` as an Icmp layer and everything it carries: see `parse_stack`.
    pub fn from_buf(buf: Vec<u8>) -> (r: Option<Self>)
        ensures
            r is Some <==> parse_stack(Layers::Icmp, buf@) is Some,
            r is Some ==> parse_stack(Layers::Icmp, buf@) == Some(r.unwrap().stack()) && r.unwrap().wf(),
    {
        match parse_layer(Layers::Icmp, buf) {
            Some(LayerMut::Icmp(x)) => Some(x),
            _ => None,
        }
    }
}

impl UdpMut {
    /// Decodes `buf` as an Udp layer and everything it carries: see `parse_stack`.
    pub fn from_buf(buf: Vec<u8>) -> (r: Option<Self>)
        ensures
            r is Some <==> parse_stack(Layers::Udp, buf@) is Some,
            r is Some ==> parse_stack(Layers::Udp, buf@) == Some(r.unwrap().stack()) && r.unwrap().wf(),
    {
        match parse_layer(Layers::Udp, buf) {
            Some(LayerMut::Udp(x)) => Some(x),
            _ => None,
        }
    }
}

impl TcpMut {
    /// Decodes `buf` as a Tcp layer and everything it carries: see `parse_stack`.
    pub fn from_buf(buf: Vec<u8>) -> (r: Option<Self>)
        ensures
            r is Some <==> parse_stack(Layers::Tcp, buf@) is Some,
            r is Some ==> parse_stack(Layers::Tcp, buf@) == Some(r.unwrap().stack()) && r.unwrap().wf(),
    {
        match parse_layer(Layers::Tcp, buf) {
            Some(LayerMut::Tcp(x)) => Some(x),
            _ => None,
        }
    }
}

impl PayloadMut {
    /// Decodes `buf` as a Payload layer and everything it carries: see `parse_stack`.
    pub fn from_buf(buf: Vec<u8>) -> (r: Option<Self>)
        ensures
            r is Some <==> parse_stack(Layers::Payload, buf@) is Some,
            r is Some ==> parse_stack(Layers::Payload, buf@) == Some(r.unwrap().stack()) && r.unwrap().wf(),
    {
        match parse_layer(Layers::Payload, buf) {
            Some(LayerMut::Payload(x)) => Some(x),
            _ => None,
        }
    }
}

} // verus!
