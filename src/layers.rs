//! Owned, mutable layers and the chain they form.
use vstd::prelude::*;

use crate::bytes::read_bytes;
use crate::kinds::{min_size, Layers};

verus! {

/// One header of a chain: its kind and its encoded bytes.
pub type Header = (Layers, Seq<u8>);

/// Every header holds at least the minimum number of bytes of its kind.
pub open spec fn headers_wf(s: Seq<Header>) -> bool {
    forall|i: int| 0 <= i < s.len() ==> (#[trigger] s[i]).1.len() >= min_size(s[i].0)
}

/// A fresh vector holding the same bytes.
pub fn copy_bytes(b: &[u8]) -> (r: Vec<u8>)
    ensures
        r@ == b@,
{
    let r = read_bytes(b, 0, b.len());
    assert(b@.subrange(0, b@.len() as int) =~= b@);
    r
}

/// A deep copy of an optional upper layer.
pub fn duplicate_upper(u: &Option<Box<LayerMut>>) -> (r: Option<Box<LayerMut>>)
    ensures
        upper_stack(r) == upper_stack(*u),
{
    match u {
        Some(c) => Some(Box::new(c.duplicate())),
        None => None,
    }
}

/// The headers of an optional upper layer.
pub open spec fn upper_stack(u: Option<Box<LayerMut>>) -> Seq<Header> {
    match u {
        Some(c) => c.stack(),
        None => Seq::empty(),
    }
}

/// Mutable representation of an Ethernet layer.
#[derive(Debug)]
pub struct EtherMut {
    pub(crate) buf: Vec<u8>,
    /// The upper layer, carried as this layer's payload
    pub upper_layer: Option<Box<LayerMut>>,
}

/// Mutable representation of a VLAN (802.1Q) layer.
#[derive(Debug)]
pub struct VlanMut {
    pub(crate) buf: Vec<u8>,
    /// The upper layer, carried as this layer's payload
    pub upper_layer: Option<Box<LayerMut>>,
}

/// Mutable representation of an ARP layer.
#[derive(Debug)]
pub struct ArpMut {
    pub(crate) buf: Vec<u8>,
}

/// Mutable representation of an IPv4 layer.
#[derive(Debug)]
pub struct Ipv4Mut {
    pub(crate) buf: Vec<u8>,
    /// The upper layer, carried as this layer's payload
    pub upper_layer: Option<Box<LayerMut>>,
}

/// Mutable representation of an IPv6 layer.
#[derive(Debug)]
pub struct Ipv6Mut {
    pub(crate) buf: Vec<u8>,
    /// The upper layer, carried as this layer's payload
    pub upper_layer: Option<Box<LayerMut>>,
}

/// Mutable representation of an ICMP layer.
#[derive(Debug)]
pub struct IcmpMut {
    pub(crate) buf: Vec<u8>,
}

/// Mutable representation of a UDP layer.
#[derive(Debug)]
pub struct UdpMut {
    pub(crate) buf: Vec<u8>,
    /// The upper layer, carried as this layer's payload
    pub upper_layer: Option<Box<LayerMut>>,
}

/// Mutable representation of a TCP layer.
#[derive(Debug)]
pub struct TcpMut {
    pub(crate) buf: Vec<u8>,
    /// The upper layer, carried as this layer's payload
    pub upper_layer: Option<Box<LayerMut>>,
}

/// Mutable representation of a raw payload layer.
#[derive(Debug)]
pub struct PayloadMut {
    /// the payload bytes
    pub buf: Vec<u8>,
}

/// A layer of any kind, owning the layers above it.
#[derive(Debug)]
pub enum LayerMut {
    Ether(EtherMut),
    Vlan(VlanMut),
    Arp(ArpMut),
    Ipv4(Ipv4Mut),
    Ipv6(Ipv6Mut),
    Icmp(IcmpMut),
    Udp(UdpMut),
    Tcp(TcpMut),
    Payload(PayloadMut),
}

impl LayerMut {
    /// The headers of the chain, from this layer upward.
    pub open(crate) spec fn stack(&self) -> Seq<Header>
        decreases self,
    {
        match self {
            LayerMut::Ether(x) => seq![(Layers::Ether, x.buf@)] + match x.upper_layer {
                Some(c) => c.stack(),
                None => Seq::empty(),
            },
            LayerMut::Vlan(x) => seq![(Layers::Vlan, x.buf@)] + match x.upper_layer {
                Some(c) => c.stack(),
                None => Seq::empty(),
            },
            LayerMut::Arp(x) => seq![(Layers::Arp, x.buf@)],
            LayerMut::Ipv4(x) => seq![(Layers::Ipv4, x.buf@)] + match x.upper_layer {
                Some(c) => c.stack(),
                None => Seq::empty(),
            },
            LayerMut::Ipv6(x) => seq![(Layers::Ipv6, x.buf@)] + match x.upper_layer {
                Some(c) => c.stack(),
                None => Seq::empty(),
            },
            LayerMut::Icmp(x) => seq![(Layers::Icmp, x.buf@)],
            LayerMut::Udp(x) => seq![(Layers::Udp, x.buf@)] + match x.upper_layer {
                Some(c) => c.stack(),
                None => Seq::empty(),
            },
            LayerMut::Tcp(x) => seq![(Layers::Tcp, x.buf@)] + match x.upper_layer {
                Some(c) => c.stack(),
                None => Seq::empty(),
            },
            LayerMut::Payload(x) => seq![(Layers::Payload, x.buf@)],
        }
    }

    pub open spec fn wf(&self) -> bool {
        headers_wf(self.stack())
    }

    pub proof fn lemma_stack_nonempty(&self)
        ensures
            self.stack().len() >= 1,
    {
    }

    /// The kind of this layer.
    pub fn kind(&self) -> (r: Layers)
        ensures
            r == self.stack()[0].0,
    {
        match self {
            LayerMut::Ether(_) => Layers::Ether,
            LayerMut::Vlan(_) => Layers::Vlan,
            LayerMut::Arp(_) => Layers::Arp,
            LayerMut::Ipv4(_) => Layers::Ipv4,
            LayerMut::Ipv6(_) => Layers::Ipv6,
            LayerMut::Icmp(_) => Layers::Icmp,
            LayerMut::Udp(_) => Layers::Udp,
            LayerMut::Tcp(_) => Layers::Tcp,
            LayerMut::Payload(_) => Layers::Payload,
        }
    }

    /// A deep copy of the whole chain from this layer upward.
    pub fn duplicate(&self) -> (r: LayerMut)
        ensures
            r.stack() == self.stack(),
        decreases self,
    {
        match self {
            LayerMut::Ether(x) => {
                let upper_layer = match &x.upper_layer {
                    Some(c) => Some(Box::new(c.duplicate())),
                    None => None,
                };
                LayerMut::Ether(EtherMut { buf: copy_bytes(x.buf.as_slice()), upper_layer })
            },
            LayerMut::Vlan(x) => {
                let upper_layer = match &x.upper_layer {
                    Some(c) => Some(Box::new(c.duplicate())),
                    None => None,
                };
                LayerMut::Vlan(VlanMut { buf: copy_bytes(x.buf.as_slice()), upper_layer })
            },
            LayerMut::Arp(x) => LayerMut::Arp(ArpMut { buf: copy_bytes(x.buf.as_slice()) }),
            LayerMut::Ipv4(x) => {
                let upper_layer = match &x.upper_layer {
                    Some(c) => Some(Box::new(c.duplicate())),
                    None => None,
                };
                LayerMut::Ipv4(Ipv4Mut { buf: copy_bytes(x.buf.as_slice()), upper_layer })
            },
            LayerMut::Ipv6(x) => {
                let upper_layer = match &x.upper_layer {
                    Some(c) => Some(Box::new(c.duplicate())),
                    None => None,
                };
                LayerMut::Ipv6(Ipv6Mut { buf: copy_bytes(x.buf.as_slice()), upper_layer })
            },
            LayerMut::Icmp(x) => LayerMut::Icmp(IcmpMut { buf: copy_bytes(x.buf.as_slice()) }),
            LayerMut::Udp(x) => {
                let upper_layer = match &x.upper_layer {
                    Some(c) => Some(Box::new(c.duplicate())),
                    None => None,
                };
                LayerMut::Udp(UdpMut { buf: copy_bytes(x.buf.as_slice()), upper_layer })
            },
            LayerMut::Tcp(x) => {
                let upper_layer = match &x.upper_layer {
                    Some(c) => Some(Box::new(c.duplicate())),
                    None => None,
                };
                LayerMut::Tcp(TcpMut { buf: copy_bytes(x.buf.as_slice()), upper_layer })
            },
            LayerMut::Payload(x) => LayerMut::Payload(PayloadMut { buf: copy_bytes(x.buf.as_slice()) }),
        }
    }
}

impl EtherMut {
    /// The headers of the chain, from this layer upward.
    pub open(crate) spec fn stack(&self) -> Seq<Header> {
        seq![(Layers::Ether, self.buf@)] + upper_stack(self.upper_layer)
    }

    pub open spec fn wf(&self) -> bool {
        headers_wf(self.stack())
    }

    pub proof fn lemma_stack(&self)
        ensures
            self.stack() == LayerMut::Ether(*self).stack(),
    {
    }

    /// A zeroed header of the minimum size, with nothing above it.
    pub fn new() -> (r: Self)
        ensures
            r.stack() == seq![(Layers::Ether, Seq::new(min_size(Layers::Ether), |i: int| 0u8))],
            r.wf(),
    {
        let n = Layers::Ether.minimum_size();
        let buf: Vec<u8> = vec![0u8; n];
        proof {
            assert(buf@ =~= Seq::new(min_size(Layers::Ether), |i: int| 0u8));
        }
        let r = EtherMut { buf, upper_layer: None };
        assert(r.stack() =~= seq![(Layers::Ether, Seq::new(min_size(Layers::Ether), |i: int| 0u8))]);
        r
    }

    /// The encoded bytes of this layer's own header.
    pub fn header(&self) -> (r: &[u8])
        ensures
            r@ == self.stack()[0].1,
    {
        self.buf.as_slice()
    }
}

impl VlanMut {
    /// The headers of the chain, from this layer upward.
    pub open(crate) spec fn stack(&self) -> Seq<Header> {
        seq![(Layers::Vlan, self.buf@)] + upper_stack(self.upper_layer)
    }

    pub open spec fn wf(&self) -> bool {
        headers_wf(self.stack())
    }

    pub proof fn lemma_stack(&self)
        ensures
            self.stack() == LayerMut::Vlan(*self).stack(),
    {
    }

    /// A zeroed header of the minimum size, with nothing above it.
    pub fn new() -> (r: Self)
        ensures
            r.stack() == seq![(Layers::Vlan, Seq::new(min_size(Layers::Vlan), |i: int| 0u8))],
            r.wf(),
    {
        let n = Layers::Vlan.minimum_size();
        let buf: Vec<u8> = vec![0u8; n];
        proof {
            assert(buf@ =~= Seq::new(min_size(Layers::Vlan), |i: int| 0u8));
        }
        let r = VlanMut { buf, upper_layer: None };
        assert(r.stack() =~= seq![(Layers::Vlan, Seq::new(min_size(Layers::Vlan), |i: int| 0u8))]);
        r
    }

    /// The encoded bytes of this layer's own header.
    pub fn header(&self) -> (r: &[u8])
        ensures
            r@ == self.stack()[0].1,
    {
        self.buf.as_slice()
    }
}

impl ArpMut {
    /// The headers of the chain, from this layer upward.
    pub open(crate) spec fn stack(&self) -> Seq<Header> {
        seq![(Layers::Arp, self.buf@)] + Seq::empty()
    }

    pub open spec fn wf(&self) -> bool {
        headers_wf(self.stack())
    }

    pub proof fn lemma_stack(&self)
        ensures
            self.stack() == LayerMut::Arp(*self).stack(),
    {
    }

    /// A zeroed header of the minimum size, with nothing above it.
    pub fn new() -> (r: Self)
        ensures
            r.stack() == seq![(Layers::Arp, Seq::new(min_size(Layers::Arp), |i: int| 0u8))],
            r.wf(),
    {
        let n = Layers::Arp.minimum_size();
        let buf: Vec<u8> = vec![0u8; n];
        proof {
            assert(buf@ =~= Seq::new(min_size(Layers::Arp), |i: int| 0u8));
        }
        let r = ArpMut { buf };
        assert(r.stack() =~= seq![(Layers::Arp, Seq::new(min_size(Layers::Arp), |i: int| 0u8))]);
        r
    }

    /// The encoded bytes of this layer's own header.
    pub fn header(&self) -> (r: &[u8])
        ensures
            r@ == self.stack()[0].1,
    {
        self.buf.as_slice()
    }
}

impl Ipv4Mut {
    /// The headers of the chain, from this layer upward.
    pub open(crate) spec fn stack(&self) -> Seq<Header> {
        seq![(Layers::Ipv4, self.buf@)] + upper_stack(self.upper_layer)
    }

    pub open spec fn wf(&self) -> bool {
        headers_wf(self.stack())
    }

    pub proof fn lemma_stack(&self)
        ensures
            self.stack() == LayerMut::Ipv4(*self).stack(),
    {
    }

    /// A zeroed header of the minimum size, with nothing above it.
    pub fn new() -> (r: Self)
        ensures
            r.stack() == seq![(Layers::Ipv4, Seq::new(min_size(Layers::Ipv4), |i: int| 0u8))],
            r.wf(),
    {
        let n = Layers::Ipv4.minimum_size();
        let buf: Vec<u8> = vec![0u8; n];
        proof {
            assert(buf@ =~= Seq::new(min_size(Layers::Ipv4), |i: int| 0u8));
        }
        let r = Ipv4Mut { buf, upper_layer: None };
        assert(r.stack() =~= seq![(Layers::Ipv4, Seq::new(min_size(Layers::Ipv4), |i: int| 0u8))]);
        r
    }

    /// The encoded bytes of this layer's own header.
    pub fn header(&self) -> (r: &[u8])
        ensures
            r@ == self.stack()[0].1,
    {
        self.buf.as_slice()
    }
}

impl Ipv6Mut {
    /// The headers of the chain, from this layer upward.
    pub open(crate) spec fn stack(&self) -> Seq<Header> {
        seq![(Layers::Ipv6, self.buf@)] + upper_stack(self.upper_layer)
    }

    pub open spec fn wf(&self) -> bool {
        headers_wf(self.stack())
    }

    pub proof fn lemma_stack(&self)
        ensures
            self.stack() == LayerMut::Ipv6(*self).stack(),
    {
    }

    /// A zeroed header of the minimum size, with nothing above it.
    pub fn new() -> (r: Self)
        ensures
            r.stack() == seq![(Layers::Ipv6, Seq::new(min_size(Layers::Ipv6), |i: int| 0u8))],
            r.wf(),
    {
        let n = Layers::Ipv6.minimum_size();
        let buf: Vec<u8> = vec![0u8; n];
        proof {
            assert(buf@ =~= Seq::new(min_size(Layers::Ipv6), |i: int| 0u8));
        }
        let r = Ipv6Mut { buf, upper_layer: None };
        assert(r.stack() =~= seq![(Layers::Ipv6, Seq::new(min_size(Layers::Ipv6), |i: int| 0u8))]);
        r
    }

    /// The encoded bytes of this layer's own header.
    pub fn header(&self) -> (r: &[u8])
        ensures
            r@ == self.stack()[0].1,
    {
        self.buf.as_slice()
    }
}

impl IcmpMut {
    /// The headers of the chain, from this layer upward.
    pub open(crate) spec fn stack(&self) -> Seq<Header> {
        seq![(Layers::Icmp, self.buf@)] + Seq::empty()
    }

    pub open spec fn wf(&self) -> bool {
        headers_wf(self.stack())
    }

    pub proof fn lemma_stack(&self)
        ensures
            self.stack() == LayerMut::Icmp(*self).stack(),
    {
    }

    /// A zeroed header of the minimum size, with nothing above it.
    pub fn new() -> (r: Self)
        ensures
            r.stack() == seq![(Layers::Icmp, Seq::new(min_size(Layers::Icmp), |i: int| 0u8))],
            r.wf(),
    {
        let n = Layers::Icmp.minimum_size();
        let buf: Vec<u8> = vec![0u8; n];
        proof {
            assert(buf@ =~= Seq::new(min_size(Layers::Icmp), |i: int| 0u8));
        }
        let r = IcmpMut { buf };
        assert(r.stack() =~= seq![(Layers::Icmp, Seq::new(min_size(Layers::Icmp), |i: int| 0u8))]);
        r
    }

    /// The encoded bytes of this layer's own header.
    pub fn header(&self) -> (r: &[u8])
        ensures
            r@ == self.stack()[0].1,
    {
        self.buf.as_slice()
    }
}

impl UdpMut {
    /// The headers of the chain, from this layer upward.
    pub open(crate) spec fn stack(&self) -> Seq<Header> {
        seq![(Layers::Udp, self.buf@)] + upper_stack(self.upper_layer)
    }

    pub open spec fn wf(&self) -> bool {
        headers_wf(self.stack())
    }

    pub proof fn lemma_stack(&self)
        ensures
            self.stack() == LayerMut::Udp(*self).stack(),
    {
    }

    /// A zeroed header of the minimum size, with nothing above it.
    pub fn new() -> (r: Self)
        ensures
            r.stack() == seq![(Layers::Udp, Seq::new(min_size(Layers::Udp), |i: int| 0u8))],
            r.wf(),
    {
        let n = Layers::Udp.minimum_size();
        let buf: Vec<u8> = vec![0u8; n];
        proof {
            assert(buf@ =~= Seq::new(min_size(Layers::Udp), |i: int| 0u8));
        }
        let r = UdpMut { buf, upper_layer: None };
        assert(r.stack() =~= seq![(Layers::Udp, Seq::new(min_size(Layers::Udp), |i: int| 0u8))]);
        r
    }

    /// The encoded bytes of this layer's own header.
    pub fn header(&self) -> (r: &[u8])
        ensures
            r@ == self.stack()[0].1,
    {
        self.buf.as_slice()
    }
}

impl TcpMut {
    /// The headers of the chain, from this layer upward.
    pub open(crate) spec fn stack(&self) -> Seq<Header> {
        seq![(Layers::Tcp, self.buf@)] + upper_stack(self.upper_layer)
    }

    pub open spec fn wf(&self) -> bool {
        headers_wf(self.stack())
    }

    pub proof fn lemma_stack(&self)
        ensures
            self.stack() == LayerMut::Tcp(*self).stack(),
    {
    }

    /// A zeroed header of the minimum size, with nothing above it.
    pub fn new() -> (r: Self)
        ensures
            r.stack() == seq![(Layers::Tcp, Seq::new(min_size(Layers::Tcp), |i: int| 0u8))],
            r.wf(),
    {
        let n = Layers::Tcp.minimum_size();
        let buf: Vec<u8> = vec![0u8; n];
        proof {
            assert(buf@ =~= Seq::new(min_size(Layers::Tcp), |i: int| 0u8));
        }
        let r = TcpMut { buf, upper_layer: None };
        assert(r.stack() =~= seq![(Layers::Tcp, Seq::new(min_size(Layers::Tcp), |i: int| 0u8))]);
        r
    }

    /// The encoded bytes of this layer's own header.
    pub fn header(&self) -> (r: &[u8])
        ensures
            r@ == self.stack()[0].1,
    {
        self.buf.as_slice()
    }
}

impl PayloadMut {
    /// The headers of the chain, from this layer upward.
    pub open(crate) spec fn stack(&self) -> Seq<Header> {
        seq![(Layers::Payload, self.buf@)] + Seq::empty()
    }

    pub open spec fn wf(&self) -> bool {
        headers_wf(self.stack())
    }

    pub proof fn lemma_stack(&self)
        ensures
            self.stack() == LayerMut::Payload(*self).stack(),
    {
    }

    /// A zeroed header of the minimum size, with nothing above it.
    pub fn new() -> (r: Self)
        ensures
            r.stack() == seq![(Layers::Payload, Seq::new(min_size(Layers::Payload), |i: int| 0u8))],
            r.wf(),
    {
        let n = Layers::Payload.minimum_size();
        let buf: Vec<u8> = vec![0u8; n];
        proof {
            assert(buf@ =~= Seq::new(min_size(Layers::Payload), |i: int| 0u8));
        }
        let r = PayloadMut { buf };
        assert(r.stack() =~= seq![(Layers::Payload, Seq::new(min_size(Layers::Payload), |i: int| 0u8))]);
        r
    }

    /// The encoded bytes of this layer's own header.
    pub fn header(&self) -> (r: &[u8])
        ensures
            r@ == self.stack()[0].1,
    {
        self.buf.as_slice()
    }
}

impl Clone for EtherMut {
    fn clone(&self) -> (r: Self)
        ensures
            r.stack() == self.stack(),
    {
        EtherMut { buf: copy_bytes(self.buf.as_slice()), upper_layer: duplicate_upper(&self.upper_layer) }
    }
}

impl Clone for VlanMut {
    fn clone(&self) -> (r: Self)
        ensures
            r.stack() == self.stack(),
    {
        VlanMut { buf: copy_bytes(self.buf.as_slice()), upper_layer: duplicate_upper(&self.upper_layer) }
    }
}

impl Clone for ArpMut {
    fn clone(&self) -> (r: Self)
        ensures
            r.stack() == self.stack(),
    {
        ArpMut { buf: copy_bytes(self.buf.as_slice()) }
    }
}

impl Clone for Ipv4Mut {
    fn clone(&self) -> (r: Self)
        ensures
            r.stack() == self.stack(),
    {
        Ipv4Mut { buf: copy_bytes(self.buf.as_slice()), upper_layer: duplicate_upper(&self.upper_layer) }
    }
}

impl Clone for Ipv6Mut {
    fn clone(&self) -> (r: Self)
        ensures
            r.stack() == self.stack(),
    {
        Ipv6Mut { buf: copy_bytes(self.buf.as_slice()), upper_layer: duplicate_upper(&self.upper_layer) }
    }
}

impl Clone for IcmpMut {
    fn clone(&self) -> (r: Self)
        ensures
            r.stack() == self.stack(),
    {
        IcmpMut { buf: copy_bytes(self.buf.as_slice()) }
    }
}

impl Clone for UdpMut {
    fn clone(&self) -> (r: Self)
        ensures
            r.stack() == self.stack(),
    {
        UdpMut { buf: copy_bytes(self.buf.as_slice()), upper_layer: duplicate_upper(&self.upper_layer) }
    }
}

impl Clone for TcpMut {
    fn clone(&self) -> (r: Self)
        ensures
            r.stack() == self.stack(),
    {
        TcpMut { buf: copy_bytes(self.buf.as_slice()), upper_layer: duplicate_upper(&self.upper_layer) }
    }
}

impl Clone for PayloadMut {
    fn clone(&self) -> (r: Self)
        ensures
            r.stack() == self.stack(),
    {
        PayloadMut { buf: copy_bytes(self.buf.as_slice()) }
    }
}

impl Clone for LayerMut {
    fn clone(&self) -> (r: Self)
        ensures
            r.stack() == self.stack(),
    {
        self.duplicate()
    }
}

} // verus!
