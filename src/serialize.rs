//! Serialising a chain, bottom-first: next-protocol codes, defaults, lengths and checksums.
use vstd::prelude::*;
use vstd::slice::slice_subrange;

use crate::bytes::{be16, put16, read16, write16};
use crate::checksum::{
    checksum, internet_checksum, ipv4_checksum, ipv4_pseudo_checksum, ipv6_checksum,
    ipv6_pseudo_checksum,
};
use crate::entropy::random_identification;
use crate::kinds::{ipv4_code, ipv6_code, link_code, min_size, Layers};
use crate::layers::{
    upper_stack, ArpMut, EtherMut, Header, IcmpMut, Ipv4Mut, Ipv6Mut, LayerMut, PayloadMut,
    TcpMut, UdpMut, VlanMut,
};
use crate::magics::MAGIC_IPV4_TTL;

verus! {

/// Addresses of the enclosing network layer, which a transport checksum covers.
pub enum Pseudo {
    Unset,
    V4(Seq<u8>, Seq<u8>),
    V6(Seq<u8>, Seq<u8>),
}

/// Source and destination addresses handed from a network layer to its transport child.
pub enum Addrs {
    Unset,
    V4([u8; 4], [u8; 4]),
    V6([u8; 16], [u8; 16]),
}

impl Addrs {
    pub open spec fn view(&self) -> Pseudo {
        match self {
            Addrs::Unset => Pseudo::Unset,
            Addrs::V4(s, d) => Pseudo::V4(s@, d@),
            Addrs::V6(s, d) => Pseudo::V6(s@, d@),
        }
    }
}

/// IPv4 header with version 4, header length 5 words, the given identification and the magic
/// TTL filled in where they are zero.
pub open spec fn ipv4_defaults(b: Seq<u8>, ident: u16) -> Seq<u8> {
    let v = b[0] as int / 16;
    let l = b[0] as int % 16;
    let b1 = b.update(0, ((if v == 0 { 4 } else { v }) * 16 + (if l == 0 { 5 } else { l })) as u8);
    let b2 = if be16(b1, 4) == 0 { put16(b1, 4, ident) } else { b1 };
    if b2[8] == 0 { b2.update(8, MAGIC_IPV4_TTL) } else { b2 }
}

/// IPv6 header with version 6 filled in where it is zero.
pub open spec fn ipv6_defaults(b: Seq<u8>) -> Seq<u8> {
    if b[0] as int / 16 == 0 { b.update(0, (96 + b[0] as int % 16) as u8) } else { b }
}

/// Kind of the first layer of an upper chain.
pub open spec fn child_kind(rest: Seq<Header>) -> Option<Layers> {
    if rest.len() > 0 { Some(rest[0].0) } else { None }
}

/// Whether a layer of kind `k` knows how to build a child of kind `ck`.
pub open spec fn child_ok(k: Layers, ck: Option<Layers>) -> bool {
    match ck {
        None => true,
        Some(c) => match k {
            Layers::Ether | Layers::Vlan => link_code(c) is Some,
            Layers::Ipv4 => ipv4_code(c) is Some,
            Layers::Ipv6 => ipv6_code(c) is Some,
            Layers::Udp | Layers::Tcp => c == Layers::Payload,
            _ => false,
        },
    }
}

/// The header of kind `k` before its child is appended: next-protocol code and defaults set.
pub open spec fn prepare(k: Layers, b: Seq<u8>, ident: u16, ck: Option<Layers>) -> Seq<u8> {
    match k {
        Layers::Ether => match ck {
            Some(c) => put16(b, 12, link_code(c).unwrap()),
            None => b,
        },
        Layers::Vlan => match ck {
            Some(c) => put16(b, 2, link_code(c).unwrap()),
            None => b,
        },
        Layers::Ipv4 => match ck {
            Some(c) => ipv4_defaults(b, ident).update(9, ipv4_code(c).unwrap()),
            None => ipv4_defaults(b, ident),
        },
        Layers::Ipv6 => match ck {
            Some(c) => ipv6_defaults(b).update(6, ipv6_code(c).unwrap()),
            None => ipv6_defaults(b),
        },
        Layers::Tcp => b.update(12, (80 + b[12] as int % 16) as u8),
        _ => b,
    }
}

/// The addresses that a layer of kind `k` with header `h` hands to its child.
pub open spec fn child_pseudo(k: Layers, h: Seq<u8>) -> Pseudo {
    match k {
        Layers::Ipv4 => Pseudo::V4(h.subrange(12, 16), h.subrange(16, 20)),
        Layers::Ipv6 => Pseudo::V6(h.subrange(8, 24), h.subrange(24, 40)),
        _ => Pseudo::Unset,
    }
}

/// Bytes of an IPv4 header covered by its checksum: the declared header length, kept between
/// the minimum header size and the buffer's length.
pub open spec fn ipv4_header_len(b: Seq<u8>) -> int {
    let l = (b[0] as int % 16) * 4;
    if l < 20 {
        20
    } else if l > b.len() {
        b.len() as int
    } else {
        l
    }
}

/// The layer of kind `k` whose bytes with its child appended are `all`, once lengths and
/// checksums are set; `ph` gives the enclosing network layer's addresses.
pub open spec fn finish(k: Layers, all: Seq<u8>, ph: Pseudo) -> Option<Seq<u8>> {
    match k {
        Layers::Ipv4 => if all.len() > 65535 {
            None
        } else {
            let z = put16(put16(all, 2, all.len() as u16), 10, 0);
            Some(put16(z, 10, internet_checksum(z.subrange(0, ipv4_header_len(z)), 5)))
        },
        Layers::Ipv6 => if all.len() > 65535 {
            None
        } else {
            Some(put16(all, 4, (all.len() - 40) as u16))
        },
        Layers::Udp => if all.len() > 65535 {
            None
        } else {
            let t = put16(all, 4, all.len() as u16);
            match ph {
                Pseudo::Unset => Some(t),
                Pseudo::V4(s, d) => {
                    let z = put16(t, 6, 0);
                    Some(put16(z, 6, ipv4_pseudo_checksum(z, 3, s, d, 17)))
                },
                Pseudo::V6(s, d) => {
                    let z = put16(t, 6, 0);
                    Some(put16(z, 6, ipv6_pseudo_checksum(z, 3, s, d, 17)))
                },
            }
        },
        Layers::Tcp => match ph {
            Pseudo::Unset => Some(all),
            Pseudo::V4(s, d) => if all.len() > 65535 {
                None
            } else {
                let z = put16(all, 16, 0);
                Some(put16(z, 16, ipv4_pseudo_checksum(z, 8, s, d, 6)))
            },
            Pseudo::V6(s, d) => if all.len() > 65535 {
                None
            } else {
                let z = put16(all, 16, 0);
                Some(put16(z, 16, ipv6_pseudo_checksum(z, 8, s, d, 6)))
            },
        },
        Layers::Icmp => if all.len() > 65535 {
            None
        } else {
            let z = put16(all, 2, 0);
            Some(put16(z, 2, internet_checksum(z, 1)))
        },
        _ => Some(all),
    }
}

/// The bytes that building the chain `s` yields, given the identification used for an IPv4
/// header that has none, and the enclosing network layer's addresses; `None` where building
/// fails.
pub open spec fn build_stack(s: Seq<Header>, ident: u16, ph: Pseudo) -> Option<Seq<u8>>
    decreases s.len(),
{
    if s.len() == 0 {
        None
    } else {
        let k = s[0].0;
        let rest = s.drop_first();
        let ck = child_kind(rest);
        if s[0].1.len() < min_size(k) || !child_ok(k, ck) {
            None
        } else {
            let h = prepare(k, s[0].1, ident, ck);
            let inner = if rest.len() > 0 {
                build_stack(rest, ident, child_pseudo(k, h))
            } else {
                Some(Seq::empty())
            };
            match inner {
                None => None,
                Some(p) => finish(k, h + p, ph),
            }
        }
    }
}

pub open spec fn opt_bytes(r: Option<Vec<u8>>) -> Option<Seq<u8>> {
    match r {
        Some(v) => Some(v@),
        None => None,
    }
}

fn addr4(b: &[u8], off: usize) -> (r: [u8; 4])
    requires
        off + 4 <= b@.len(),
    ensures
        r@ == b@.subrange(off as int, off + 4),
{
    let r = [b[off], b[off + 1], b[off + 2], b[off + 3]];
    assert(r@ =~= b@.subrange(off as int, off + 4));
    r
}

fn addr16(b: &[u8], off: usize) -> (r: [u8; 16])
    requires
        off + 16 <= b@.len(),
    ensures
        r@ == b@.subrange(off as int, off + 16),
{
    let r = [
        b[off],
        b[off + 1],
        b[off + 2],
        b[off + 3],
        b[off + 4],
        b[off + 5],
        b[off + 6],
        b[off + 7],
        b[off + 8],
        b[off + 9],
        b[off + 10],
        b[off + 11],
        b[off + 12],
        b[off + 13],
        b[off + 14],
        b[off + 15],
    ];
    assert(r@ =~= b@.subrange(off as int, off + 16));
    r
}

fn upper_kind(u: &Option<Box<LayerMut>>) -> (r: Option<Layers>)
    ensures
        r == child_kind(upper_stack(*u)),
{
    match u {
        Some(c) => {
            proof {
                c.lemma_stack_nonempty();
            }
            Some(c.kind())
        },
        None => None,
    }
}

fn child_addrs(k: Layers, b: &[u8]) -> (r: Addrs)
    requires
        b@.len() >= min_size(k),
    ensures
        r@ == child_pseudo(k, b@),
{
    match k {
        Layers::Ipv4 => Addrs::V4(addr4(b, 12), addr4(b, 16)),
        Layers::Ipv6 => Addrs::V6(addr16(b, 8), addr16(b, 24)),
        _ => Addrs::Unset,
    }
}

fn fill_ipv4_defaults(b: &mut Vec<u8>, ident: u16)
    requires
        old(b)@.len() >= 20,
    ensures
        final(b)@ == ipv4_defaults(old(b)@, ident),
{
    let b0 = b[0];
    let v = b0 / 16;
    let l = b0 % 16;
    let nv = if v == 0 { 4u8 } else { v };
    let nl = if l == 0 { 5u8 } else { l };
    b.set(0, nv * 16 + nl);
    if read16(b.as_slice(), 4) == 0 {
        write16(b, 4, ident);
    }
    if b[8] == 0 {
        b.set(8, MAGIC_IPV4_TTL);
    }
}

/// Sets next-protocol code and defaults; false where the child's kind is not one this kind
/// builds.
fn prepare_header(k: Layers, b: &mut Vec<u8>, ident: u16, ck: Option<Layers>) -> (ok: bool)
    requires
        old(b)@.len() >= min_size(k),
    ensures
        ok == child_ok(k, ck),
        ok ==> final(b)@ == prepare(k, old(b)@, ident, ck),
        final(b)@.len() == old(b)@.len(),
{
    match k {
        Layers::Ether | Layers::Vlan => {
            let off: usize = if k == Layers::Ether { 12 } else { 2 };
            match ck {
                Some(c) => match c.link_code() {
                    Some(t) => {
                        write16(b, off, t);
                        true
                    },
                    None => false,
                },
                None => true,
            }
        },
        Layers::Ipv4 => {
            match ck {
                Some(c) => match c.ipv4_code() {
                    Some(p) => {
                        fill_ipv4_defaults(b, ident);
                        b.set(9, p);
                        true
                    },
                    None => false,
                },
                None => {
                    fill_ipv4_defaults(b, ident);
                    true
                },
            }
        },
        Layers::Ipv6 => {
            let code = match ck {
                Some(c) => match c.ipv6_code() {
                    Some(p) => Some(p),
                    None => {
                        return false;
                    },
                },
                None => None,
            };
            let b0 = b[0];
            if b0 / 16 == 0 {
                b.set(0, 96 + b0 % 16);
            }
            if let Some(p) = code {
                b.set(6, p);
            }
            true
        },
        Layers::Udp | Layers::Tcp => {
            let ok = match ck {
                Some(c) => c == Layers::Payload,
                None => true,
            };
            if ok && k == Layers::Tcp {
                let b12 = b[12];
                b.set(12, 80 + b12 % 16);
            }
            ok
        },
        _ => ck.is_none(),
    }
}

/// Sets lengths and checksums once the child's bytes are appended.
fn finish_layer(k: Layers, all: Vec<u8>, ph: &Addrs) -> (r: Option<Vec<u8>>)
    requires
        all@.len() >= min_size(k),
    ensures
        opt_bytes(r) == finish(k, all@, ph@),
{
    let mut all = all;
    let n = all.len();
    match k {
        Layers::Ipv4 => {
            if n > 65535 {
                return None;
            }
            write16(&mut all, 2, n as u16);
            write16(&mut all, 10, 0);
            let l = (all[0] % 16) as usize * 4;
            let hl = if l < 20 { 20 } else if l > n { n } else { l };
            let c = checksum(slice_subrange(all.as_slice(), 0, hl), 5);
            write16(&mut all, 10, c);
            Some(all)
        },
        Layers::Ipv6 => {
            if n > 65535 {
                return None;
            }
            write16(&mut all, 4, (n - 40) as u16);
            Some(all)
        },
        Layers::Udp => {
            if n > 65535 {
                return None;
            }
            write16(&mut all, 4, n as u16);
            match ph {
                Addrs::Unset => {},
                Addrs::V4(s, d) => {
                    write16(&mut all, 6, 0);
                    let c = ipv4_checksum(all.as_slice(), 3, s, d, 17);
                    write16(&mut all, 6, c);
                },
                Addrs::V6(s, d) => {
                    write16(&mut all, 6, 0);
                    let c = ipv6_checksum(all.as_slice(), 3, s, d, 17);
                    write16(&mut all, 6, c);
                },
            }
            Some(all)
        },
        Layers::Tcp => {
            match ph {
                Addrs::Unset => {},
                Addrs::V4(s, d) => {
                    if n > 65535 {
                        return None;
                    }
                    write16(&mut all, 16, 0);
                    let c = ipv4_checksum(all.as_slice(), 8, s, d, 6);
                    write16(&mut all, 16, c);
                },
                Addrs::V6(s, d) => {
                    if n > 65535 {
                        return None;
                    }
                    write16(&mut all, 16, 0);
                    let c = ipv6_checksum(all.as_slice(), 8, s, d, 6);
                    write16(&mut all, 16, c);
                },
            }
            Some(all)
        },
        Layers::Icmp => {
            if n > 65535 {
                return None;
            }
            write16(&mut all, 2, 0);
            let c = checksum(all.as_slice(), 1);
            write16(&mut all, 2, c);
            Some(all)
        },
        _ => Some(all),
    }
}

fn build_upper(u: Option<Box<LayerMut>>, ident: u16, ph: &Addrs) -> (r: Option<Vec<u8>>)
    ensures
        opt_bytes(r) == if upper_stack(u).len() > 0 {
            build_stack(upper_stack(u), ident, ph@)
        } else {
            Some(Seq::<u8>::empty())
        },
    decreases upper_stack(u).len(), 1nat,
{
    match u {
        Some(c) => {
            proof {
                c.lemma_stack_nonempty();
            }
            (*c).build_with(ident, ph)
        },
        None => Some(Vec::new()),
    }
}

/// Builds a layer of kind `k` with header bytes `buf` and upper layer `u`.
fn build_node(k: Layers, buf: Vec<u8>, u: Option<Box<LayerMut>>, ident: u16, ph: &Addrs) -> (r:
    Option<Vec<u8>>)
    ensures
        opt_bytes(r) == build_stack(seq![(k, buf@)] + upper_stack(u), ident, ph@),
    decreases upper_stack(u).len(), 2nat,
{
    let ghost s = seq![(k, buf@)] + upper_stack(u);
    proof {
        assert(s.drop_first() =~= upper_stack(u));
        assert(s[0] == (k, buf@));
    }
    let mut buf = buf;
    if buf.len() < k.minimum_size() {
        return None;
    }
    let ck = upper_kind(&u);
    if !prepare_header(k, &mut buf, ident, ck) {
        return None;
    }
    let addrs = child_addrs(k, buf.as_slice());
    let inner = build_upper(u, ident, &addrs);
    match inner {
        None => None,
        Some(mut p) => {
            let ghost h = buf@;
            buf.append(&mut p);
            assert(buf@ == h + opt_bytes(inner).unwrap());
            finish_layer(k, buf, ph)
        },
    }
}

impl LayerMut {
    /// Builds the chain with `ident` as the identification of an IPv4 header that has none,
    /// `ph` giving the enclosing network layer's addresses.
    pub fn build_with(self, ident: u16, ph: &Addrs) -> (r: Option<Vec<u8>>)
        ensures
            opt_bytes(r) == build_stack(self.stack(), ident, ph@),
        decreases self.stack().len(), 0nat,
    {
        match self {
            LayerMut::Ether(x) => build_node(Layers::Ether, x.buf, x.upper_layer, ident, ph),
            LayerMut::Vlan(x) => build_node(Layers::Vlan, x.buf, x.upper_layer, ident, ph),
            LayerMut::Arp(x) => build_node(Layers::Arp, x.buf, None, ident, ph),
            LayerMut::Ipv4(x) => build_node(Layers::Ipv4, x.buf, x.upper_layer, ident, ph),
            LayerMut::Ipv6(x) => build_node(Layers::Ipv6, x.buf, x.upper_layer, ident, ph),
            LayerMut::Icmp(x) => build_node(Layers::Icmp, x.buf, None, ident, ph),
            LayerMut::Udp(x) => build_node(Layers::Udp, x.buf, x.upper_layer, ident, ph),
            LayerMut::Tcp(x) => build_node(Layers::Tcp, x.buf, x.upper_layer, ident, ph),
            LayerMut::Payload(x) => build_node(Layers::Payload, x.buf, None, ident, ph),
        }
    }

    /// Builds the chain into the bytes to send; `ident` is the identification given to an
    /// IPv4 header that has none.
    pub fn build_with_identification(self, ident: u16) -> (r: Option<Vec<u8>>)
        ensures
            opt_bytes(r) == build_stack(self.stack(), ident, Pseudo::Unset),
    {
        self.build_with(ident, &Addrs::Unset)
    }

    /// Builds the chain into the bytes to send. An IPv4 header without identification gets a
    /// random one.
    pub fn build(self) -> (r: Option<Vec<u8>>)
        ensures
            exists|id: u16| id < 65535 && opt_bytes(r) == build_stack(self.stack(), id, Pseudo::Unset),
    {
        let id = random_identification();
        self.build_with(id, &Addrs::Unset)
    }
}

impl EtherMut {
    /// Builds the chain from this layer upward: see `LayerMut::build`.
    pub fn build(self) -> (r: Option<Vec<u8>>)
        ensures
            exists|id: u16| id < 65535 && opt_bytes(r) == build_stack(self.stack(), id, Pseudo::Unset),
    {
        proof {
            self.lemma_stack();
        }
        LayerMut::Ether(self).build()
    }
}

impl VlanMut {
    /// Builds the chain from this layer upward: see `LayerMut::build`.
    pub fn build(self) -> (r: Option<Vec<u8>>)
        ensures
            exists|id: u16| id < 65535 && opt_bytes(r) == build_stack(self.stack(), id, Pseudo::Unset),
    {
        proof {
            self.lemma_stack();
        }
        LayerMut::Vlan(self).build()
    }
}

impl ArpMut {
    /// Builds the chain from this layer upward: see `LayerMut::build`.
    pub fn build(self) -> (r: Option<Vec<u8>>)
        ensures
            exists|id: u16| id < 65535 && opt_bytes(r) == build_stack(self.stack(), id, Pseudo::Unset),
    {
        proof {
            self.lemma_stack();
        }
        LayerMut::Arp(self).build()
    }
}

impl Ipv4Mut {
    /// Builds the chain from this layer upward: see `LayerMut::build`.
    pub fn build(self) -> (r: Option<Vec<u8>>)
        ensures
            exists|id: u16| id < 65535 && opt_bytes(r) == build_stack(self.stack(), id, Pseudo::Unset),
    {
        proof {
            self.lemma_stack();
        }
        LayerMut::Ipv4(self).build()
    }
}

impl Ipv6Mut {
    /// Builds the chain from this layer upward: see `LayerMut::build`.
    pub fn build(self) -> (r: Option<Vec<u8>>)
        ensures
            exists|id: u16| id < 65535 && opt_bytes(r) == build_stack(self.stack(), id, Pseudo::Unset),
    {
        proof {
            self.lemma_stack();
        }
        LayerMut::Ipv6(self).build()
    }
}

impl IcmpMut {
    /// Builds the chain from this layer upward: see `LayerMut::build`.
    pub fn build(self) -> (r: Option<Vec<u8>>)
        ensures
            exists|id: u16| id < 65535 && opt_bytes(r) == build_stack(self.stack(), id, Pseudo::Unset),
    {
        proof {
            self.lemma_stack();
        }
        LayerMut::Icmp(self).build()
    }
}

impl UdpMut {
    /// Builds the chain from this layer upward: see `LayerMut::build`.
    pub fn build(self) -> (r: Option<Vec<u8>>)
        ensures
            exists|id: u16| id < 65535 && opt_bytes(r) == build_stack(self.stack(), id, Pseudo::Unset),
    {
        proof {
            self.lemma_stack();
        }
        LayerMut::Udp(self).build()
    }
}

impl TcpMut {
    /// Builds the chain from this layer upward: see `LayerMut::build`.
    pub fn build(self) -> (r: Option<Vec<u8>>)
        ensures
            exists|id: u16| id < 65535 && opt_bytes(r) == build_stack(self.stack(), id, Pseudo::Unset),
    {
        proof {
            self.lemma_stack();
        }
        LayerMut::Tcp(self).build()
    }
}

impl PayloadMut {
    /// Builds the chain from this layer upward: see `LayerMut::build`.
    pub fn build(self) -> (r: Option<Vec<u8>>)
        ensures
            exists|id: u16| id < 65535 && opt_bytes(r) == build_stack(self.stack(), id, Pseudo::Unset),
    {
        proof {
            self.lemma_stack();
        }
        LayerMut::Payload(self).build()
    }
}

impl UdpMut {
    /// Builds the chain from this layer upward, with the checksum over the IPv4 pseudo-header
    /// of `saddr` and `daddr`.
    pub fn build_from_ipv4(self, saddr: [u8; 4], daddr: [u8; 4]) -> (r: Option<Vec<u8>>)
        ensures
            opt_bytes(r) == build_stack(self.stack(), 0, Pseudo::V4(saddr@, daddr@)),
    {
        proof {
            self.lemma_stack();
        }
        LayerMut::Udp(self).build_with(0, &Addrs::V4(saddr, daddr))
    }

    /// Builds the chain from this layer upward, with the checksum over the IPv6 pseudo-header
    /// of `saddr` and `daddr`.
    pub fn build_from_ipv6(self, saddr: [u8; 16], daddr: [u8; 16]) -> (r: Option<Vec<u8>>)
        ensures
            opt_bytes(r) == build_stack(self.stack(), 0, Pseudo::V6(saddr@, daddr@)),
    {
        proof {
            self.lemma_stack();
        }
        LayerMut::Udp(self).build_with(0, &Addrs::V6(saddr, daddr))
    }
}

impl TcpMut {
    /// Builds the chain from this layer upward, with the checksum over the IPv4 pseudo-header
    /// of `saddr` and `daddr`.
    pub fn build_from_ipv4(self, saddr: [u8; 4], daddr: [u8; 4]) -> (r: Option<Vec<u8>>)
        ensures
            opt_bytes(r) == build_stack(self.stack(), 0, Pseudo::V4(saddr@, daddr@)),
    {
        proof {
            self.lemma_stack();
        }
        LayerMut::Tcp(self).build_with(0, &Addrs::V4(saddr, daddr))
    }

    /// Builds the chain from this layer upward, with the checksum over the IPv6 pseudo-header
    /// of `saddr` and `daddr`.
    pub fn build_from_ipv6(self, saddr: [u8; 16], daddr: [u8; 16]) -> (r: Option<Vec<u8>>)
        ensures
            opt_bytes(r) == build_stack(self.stack(), 0, Pseudo::V6(saddr@, daddr@)),
    {
        proof {
            self.lemma_stack();
        }
        LayerMut::Tcp(self).build_with(0, &Addrs::V6(saddr, daddr))
    }
}

} // verus!
