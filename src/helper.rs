//! Ready-made packets: a TCP segment over Ethernet, an optional VLAN tag and IPv4, and the
//! matching ARP reply.
use vstd::prelude::*;

use crate::bytes::{put16, put32, put_bytes};
use crate::compose::{add_below, added};
use crate::craft::put_vid;
use crate::kinds::Layers;
use crate::layers::{ArpMut, EtherMut, Header, Ipv4Mut, LayerMut, TcpMut, VlanMut};

verus! {

/// TCP flag bit for SYN.
pub const TCP_FLAG_SYN: u8 = 2;

/// Window advertised by a SYN built here.
pub const SYN_WINDOW: u16 = 515;

pub open spec fn zeros(n: nat) -> Seq<u8> {
    Seq::new(n, |i: int| 0u8)
}

pub open spec fn ether_header(src: Seq<u8>, dst: Seq<u8>) -> Seq<u8> {
    put_bytes(put_bytes(zeros(14), 6, src), 0, dst)
}

pub open spec fn ipv4_header(src: Seq<u8>, dst: Seq<u8>) -> Seq<u8> {
    put_bytes(put_bytes(zeros(20), 12, src), 16, dst)
}

pub open spec fn tcp_header(sport: u16, dport: u16) -> Seq<u8> {
    put16(put16(zeros(20), 2, dport), 0, sport)
}

pub open spec fn syn_header(sport: u16, dport: u16, seq: u32) -> Seq<u8> {
    put32(put32(put16(tcp_header(sport, dport).update(13, TCP_FLAG_SYN), 14, SYN_WINDOW), 8, 0), 4, seq)
}

pub open spec fn arp_reply_header(eth_src: Seq<u8>, eth_dst: Seq<u8>, ip_src: Seq<u8>, ip_dst: Seq<u8>) -> Seq<u8> {
    let a = put16(put16(zeros(28), 2, 0x0800), 0, 1);
    let b = put16(a.update(4, 6).update(5, 4), 6, 2);
    put_bytes(put_bytes(put_bytes(put_bytes(b, 8, eth_src), 14, ip_src), 24, ip_dst), 18, eth_dst)
}

/// Ethernet, then a VLAN tag when `vlan_id` is set, then `top`.
pub open spec fn framed_chain(eth: Seq<u8>, vlan_id: Option<u16>, top: Seq<Header>) -> Seq<Header> {
    match vlan_id {
        Some(id) => seq![(Layers::Ether, eth), (Layers::Vlan, put_vid(zeros(4), id))] + top,
        None => seq![(Layers::Ether, eth)] + top,
    }
}

/// Parameters of a TCP segment over Ethernet, an optional VLAN tag and IPv4.
#[derive(Debug, Clone, PartialEq, Eq, Hash)]
pub struct TcpPacket {
    /// Ethernet source address
    pub eth_src: [u8; 6],
    /// Ethernet destination address
    pub eth_dst: [u8; 6],
    /// If set, the VLAN id
    pub vlan_id: Option<u16>,
    /// IPv4 source address
    pub ipv4_src: [u8; 4],
    /// IPv4 destination address
    pub ipv4_dst: [u8; 4],
    /// TCP destination port
    pub dport: u16,
    /// TCP source port
    pub sport: u16,
}

/// Parameters of an ARP reply over Ethernet and an optional VLAN tag.
#[derive(Debug, Clone, PartialEq, Eq, Hash)]
pub struct ArpPacket {
    pub eth_src: [u8; 6],
    pub eth_dst: [u8; 6],
    pub vlan_id: Option<u16>,
    pub ipv4_src: [u8; 4],
    pub ipv4_dst: [u8; 4],
}

/// An Ethernet layer with these addresses and, when `vlan_id` is set, a VLAN tag above it.
fn link_layers(eth_src: [u8; 6], eth_dst: [u8; 6], vlan_id: Option<u16>) -> (r: EtherMut)
    ensures
        r.stack() == framed_chain(ether_header(eth_src@, eth_dst@), vlan_id, Seq::empty()),
        r.wf(),
{
    let mut ether = EtherMut::new();
    ether.set_source(eth_src);
    ether.set_destination(eth_dst);
    assert(ether.stack() =~= seq![(Layers::Ether, ether_header(eth_src@, eth_dst@))]);
    if let Some(id) = vlan_id {
        let mut vlan = VlanMut::new();
        vlan.set_vlan_identifier(id);
        proof {
            vlan.lemma_stack();
            assert(vlan.stack() =~= seq![(Layers::Vlan, put_vid(zeros(4), id))]);
            let s = ether.stack();
            assert(s.drop_first() =~= Seq::<Header>::empty());
            assert(add_below(Layers::Ether, Seq::<Header>::empty(), vlan.stack()).1 == vlan.stack());
        }
        let _ = ether.add(LayerMut::Vlan(vlan));
        assert(ether.stack() =~= framed_chain(ether_header(eth_src@, eth_dst@), vlan_id, Seq::empty()));
    } else {
        assert(ether.stack() =~= framed_chain(ether_header(eth_src@, eth_dst@), vlan_id, Seq::empty()));
    }
    ether
}

/// Adding `x` to a chain that ends in a layer allowing it appends it.
proof fn lemma_append_on_top(s: Seq<Header>, x: Seq<Header>)
    requires
        s.len() > 0,
        x.len() > 0,
        crate::kinds::allows(s.last().0, x[0].0),
        forall|i: int| 0 <= i < s.len() - 1 ==> !crate::kinds::reorders(#[trigger] s[i].0, s[i + 1].0, x[0].0),
    ensures
        added(s, x) == (true, s + x),
    decreases s.len(),
{
    lemma_below_on_top(s[0].0, s.drop_first(), x);
    assert(seq![s[0]] + (s.drop_first() + x) =~= s + x);
}

proof fn lemma_below_on_top(k: Layers, rest: Seq<Header>, x: Seq<Header>)
    requires
        x.len() > 0,
        rest.len() == 0 ==> crate::kinds::allows(k, x[0].0),
        rest.len() > 0 ==> crate::kinds::allows(rest.last().0, x[0].0),
        rest.len() > 0 ==> !crate::kinds::reorders(k, rest[0].0, x[0].0),
        forall|i: int| 0 <= i < rest.len() - 1 ==> !crate::kinds::reorders(#[trigger] rest[i].0, rest[i + 1].0, x[0].0),
    ensures
        add_below(k, rest, x) == (true, rest + x),
    decreases rest.len(),
{
    if rest.len() > 0 {
        let t = rest.drop_first();
        assert forall|i: int| 0 <= i < t.len() - 1 implies !crate::kinds::reorders(#[trigger] t[i].0, t[i + 1].0, x[0].0) by {
            assert(t[i] == rest[i + 1]);
            assert(t[i + 1] == rest[i + 2]);
        }
        if t.len() > 0 {
            assert(t.last() == rest.last());
            assert(!crate::kinds::reorders(rest[0].0, rest[1].0, x[0].0));
        }
        lemma_below_on_top(rest[0].0, t, x);
        assert(seq![rest[0]] + (t + x) =~= rest + x);
    } else {
        assert(Seq::<Header>::empty() + x =~= x);
    }
}

impl TcpPacket {
    /// The chain of this packet with `tcp` as its TCP layer.
    fn with_tcp(&self, tcp: TcpMut) -> (r: EtherMut)
        requires
            tcp.stack().len() == 1,
        ensures
            r.stack() == framed_chain(
                ether_header(self.eth_src@, self.eth_dst@),
                self.vlan_id,
                seq![(Layers::Ipv4, ipv4_header(self.ipv4_src@, self.ipv4_dst@))] + tcp.stack(),
            ),
    {
        let mut ether = link_layers(self.eth_src, self.eth_dst, self.vlan_id);
        let mut ipv4 = Ipv4Mut::new();
        ipv4.set_source(self.ipv4_src);
        ipv4.set_destination(self.ipv4_dst);
        let ghost s0 = ether.stack();
        proof {
            ipv4.lemma_stack();
            assert(ipv4.stack() =~= seq![(Layers::Ipv4, ipv4_header(self.ipv4_src@, self.ipv4_dst@))]);
            lemma_append_on_top(s0, ipv4.stack());
        }
        let _ = ether.add(LayerMut::Ipv4(ipv4));
        let ghost s1 = ether.stack();
        proof {
            tcp.lemma_stack();
            assert(s1 == s0 + ipv4.stack());
            assert(s1.last().0 == Layers::Ipv4);
            lemma_append_on_top(s1, tcp.stack());
        }
        let _ = ether.add(LayerMut::Tcp(tcp));
        assert(ether.stack() =~= framed_chain(
            ether_header(self.eth_src@, self.eth_dst@),
            self.vlan_id,
            seq![(Layers::Ipv4, ipv4_header(self.ipv4_src@, self.ipv4_dst@))] + tcp.stack(),
        ));
        ether
    }

    /// Ethernet, VLAN when `vlan_id` is set, IPv4 and TCP with these addresses and ports, no
    /// TCP flags set.
    pub fn basic(&self) -> (r: Option<EtherMut>)
        ensures
            r is Some,
            r.unwrap().stack() == framed_chain(
                ether_header(self.eth_src@, self.eth_dst@),
                self.vlan_id,
                seq![
                    (Layers::Ipv4, ipv4_header(self.ipv4_src@, self.ipv4_dst@)),
                    (Layers::Tcp, tcp_header(self.sport, self.dport)),
                ],
            ),
    {
        let mut tcp = TcpMut::new();
        tcp.set_destination(self.dport);
        tcp.set_source(self.sport);
        assert(tcp.stack() =~= seq![(Layers::Tcp, tcp_header(self.sport, self.dport))]);
        let r = self.with_tcp(tcp);
        assert(r.stack() =~= framed_chain(
            ether_header(self.eth_src@, self.eth_dst@),
            self.vlan_id,
            seq![
                (Layers::Ipv4, ipv4_header(self.ipv4_src@, self.ipv4_dst@)),
                (Layers::Tcp, tcp_header(self.sport, self.dport)),
            ],
        ));
        Some(r)
    }

    /// The basic packet as a SYN: SYN flag, window 515, acknowledgement 0, sequence `seq`.
    pub fn syn(&self, seq: u32) -> (r: Option<EtherMut>)
        ensures
            r is Some,
            r.unwrap().stack() == framed_chain(
                ether_header(self.eth_src@, self.eth_dst@),
                self.vlan_id,
                seq![
                    (Layers::Ipv4, ipv4_header(self.ipv4_src@, self.ipv4_dst@)),
                    (Layers::Tcp, syn_header(self.sport, self.dport, seq)),
                ],
            ),
    {
        let mut tcp = TcpMut::new();
        tcp.set_destination(self.dport);
        tcp.set_source(self.sport);
        tcp.set_flags(TCP_FLAG_SYN);
        tcp.set_window(SYN_WINDOW);
        tcp.set_acknowledgement(0);
        tcp.set_sequence(seq);
        assert(tcp.stack() =~= seq![(Layers::Tcp, syn_header(self.sport, self.dport, seq))]);
        let r = self.with_tcp(tcp);
        assert(r.stack() =~= framed_chain(
            ether_header(self.eth_src@, self.eth_dst@),
            self.vlan_id,
            seq![
                (Layers::Ipv4, ipv4_header(self.ipv4_src@, self.ipv4_dst@)),
                (Layers::Tcp, syn_header(self.sport, self.dport, seq)),
            ],
        ));
        Some(r)
    }

    /// The ARP reply that lets the target of this packet find its sender.
    pub fn arp(&self) -> (r: Option<EtherMut>)
        ensures
            r is Some,
            r.unwrap().stack() == framed_chain(
                ether_header(self.eth_src@, self.eth_dst@),
                self.vlan_id,
                seq![(Layers::Arp, arp_reply_header(self.eth_src@, self.eth_dst@, self.ipv4_src@, self.ipv4_dst@))],
            ),
    {
        ArpPacket::from_tcp(self).reply()
    }
}

impl ArpPacket {
    /// The ARP parameters of a TCP packet: the same addresses and VLAN.
    pub fn from_tcp(target: &TcpPacket) -> (r: ArpPacket)
        ensures
            r.eth_src == target.eth_src,
            r.eth_dst == target.eth_dst,
            r.vlan_id == target.vlan_id,
            r.ipv4_src == target.ipv4_src,
            r.ipv4_dst == target.ipv4_dst,
    {
        ArpPacket {
            eth_src: target.eth_src,
            eth_dst: target.eth_dst,
            vlan_id: target.vlan_id,
            ipv4_src: target.ipv4_src,
            ipv4_dst: target.ipv4_dst,
        }
    }

    /// Ethernet, VLAN when `vlan_id` is set, and an ARP reply for IPv4 over Ethernet from
    /// `eth_src`/`ipv4_src` to `eth_dst`/`ipv4_dst`.
    pub fn reply(&self) -> (r: Option<EtherMut>)
        ensures
            r is Some,
            r.unwrap().stack() == framed_chain(
                ether_header(self.eth_src@, self.eth_dst@),
                self.vlan_id,
                seq![(Layers::Arp, arp_reply_header(self.eth_src@, self.eth_dst@, self.ipv4_src@, self.ipv4_dst@))],
            ),
    {
        let mut ether = link_layers(self.eth_src, self.eth_dst, self.vlan_id);
        let mut arp = ArpMut::new();
        arp.set_protocol_type(0x0800);
        arp.set_hardware_type(1);
        arp.set_hw_addr_len(6);
        arp.set_proto_addr_len(4);
        arp.set_operation(2);
        arp.set_sender_hw_addr(self.eth_src);
        arp.set_sender_proto_addr(self.ipv4_src);
        arp.set_target_proto_addr(self.ipv4_dst);
        arp.set_target_hw_addr(self.eth_dst);
        let ghost s0 = ether.stack();
        proof {
            arp.lemma_stack();
            assert(arp.stack() =~= seq![(Layers::Arp, arp_reply_header(self.eth_src@, self.eth_dst@, self.ipv4_src@, self.ipv4_dst@))]);
            lemma_append_on_top(s0, arp.stack());
        }
        let _ = ether.add(LayerMut::Arp(arp));
        Some(ether)
    }
}

} // verus!
