//! Properties that relate several operations of the engine.
use vstd::prelude::*;

use crate::bytes::{be16, swap_ranges};
use crate::parse::{declared_end, layout, parse_stack};
use crate::serialize::ipv4_header_len;
use crate::compose::{add_below, added, swap_fields, switched};
use crate::kinds::{link_kind, min_size, Layers};
use crate::layers::Header;

verus! {

/// A VLAN tag and a network layer (IPv4, IPv6 or ARP) added to a bare Ethernet or VLAN root
/// give the same chain in either order, with the tag directly above the root; all four
/// additions succeed, and whatever is added next gives the same result on both.
pub proof fn lemma_vlan_order_independent(root: Header, net: Header, tag: Header, more: Seq<Header>)
    requires
        root.0 == Layers::Ether || root.0 == Layers::Vlan,
        tag.0 == Layers::Vlan,
        net.0 == Layers::Ipv4 || net.0 == Layers::Ipv6 || net.0 == Layers::Arp,
    ensures
        added(seq![root], seq![net]).0,
        added(added(seq![root], seq![net]).1, seq![tag]).0,
        added(seq![root], seq![tag]).0,
        added(added(seq![root], seq![tag]).1, seq![net]).0,
        added(added(seq![root], seq![net]).1, seq![tag]).1 == seq![root, tag, net],
        added(added(seq![root], seq![tag]).1, seq![net]).1 == seq![root, tag, net],
        added(added(added(seq![root], seq![net]).1, seq![tag]).1, more) == added(
            added(added(seq![root], seq![tag]).1, seq![net]).1,
            more,
        ),
{
    let r = seq![root];
    assert(r.drop_first() =~= Seq::<Header>::empty());
    let a = added(r, seq![net]).1;
    assert(a =~= seq![root, net]);
    assert(a.drop_first() =~= seq![net]);
    assert(seq![tag].drop_first() =~= Seq::<Header>::empty());
    assert(seq![net].drop_first() =~= Seq::<Header>::empty());
    assert(add_below(tag.0, Seq::<Header>::empty(), seq![net]) == (true, seq![net]));
    assert(added(a, seq![tag]).1 =~= seq![root, tag, net]);
    let b = added(r, seq![tag]).1;
    assert(b =~= seq![root, tag]);
    assert(b.drop_first() =~= seq![tag]);
    assert(add_below(tag.0, seq![tag].drop_first(), seq![net]) == (true, seq![net]));
    assert(added(b, seq![net]).1 =~= seq![root, tag, net]);
}

proof fn lemma_tcp_below(k: Layers, rest: Seq<Header>, x: Seq<Header>)
    requires
        x.len() > 0,
        x[0].0 == Layers::Tcp,
        k != Layers::Ipv4 && k != Layers::Ipv6,
        forall|i: int| 0 <= i < rest.len() ==> (#[trigger] rest[i]).0 != Layers::Ipv4 && rest[i].0 != Layers::Ipv6,
    ensures
        add_below(k, rest, x) == (false, rest),
    decreases rest.len(),
{
    if rest.len() > 0 {
        let t = rest.drop_first();
        assert forall|i: int| 0 <= i < t.len() implies (#[trigger] t[i]).0 != Layers::Ipv4 && t[i].0 != Layers::Ipv6 by {
            assert(t[i] == rest[i + 1]);
        }
        lemma_tcp_below(rest[0].0, t, x);
        assert(seq![rest[0]] + t =~= rest);
    }
}

/// Attaching a TCP layer to a chain that holds no IPv4 or IPv6 layer fails and leaves the
/// chain as it was.
pub proof fn lemma_tcp_rejected_without_ip(s: Seq<Header>, x: Seq<Header>)
    requires
        s.len() > 0,
        x.len() > 0,
        x[0].0 == Layers::Tcp,
        forall|i: int| 0 <= i < s.len() ==> (#[trigger] s[i]).0 != Layers::Ipv4 && s[i].0 != Layers::Ipv6,
    ensures
        added(s, x) == (false, s),
{
    let t = s.drop_first();
    assert forall|i: int| 0 <= i < t.len() implies (#[trigger] t[i]).0 != Layers::Ipv4 && t[i].0 != Layers::Ipv6 by {
        assert(t[i] == s[i + 1]);
    }
    assert(s[0].0 != Layers::Ipv4);
    lemma_tcp_below(s[0].0, t, x);
    assert(seq![s[0]] + t =~= s);
}

/// Switching addresses twice gives back the chain as it was.
pub proof fn lemma_switch_twice(s: Seq<Header>)
    ensures
        switched(switched(s)) == s,
{
    assert forall|i: int| 0 <= i < s.len() implies #[trigger] swap_fields(s[i].0, swap_fields(s[i].0, s[i].1)) == s[i].1 by {
        let b = s[i].1;
        let k = s[i].0;
        if b.len() >= min_size(k) {
            match k {
                Layers::Ether => assert(swap_ranges(swap_ranges(b, 0, 6, 6), 0, 6, 6) =~= b),
                Layers::Ipv4 => assert(swap_ranges(swap_ranges(b, 12, 16, 4), 12, 16, 4) =~= b),
                Layers::Ipv6 => assert(swap_ranges(swap_ranges(b, 8, 24, 16), 8, 24, 16) =~= b),
                Layers::Udp | Layers::Tcp => assert(swap_ranges(swap_ranges(b, 0, 2, 2), 0, 2, 2) =~= b),
                _ => {},
            }
        }
    }
    assert(switched(switched(s)) =~= s);
}

/// One switch exchanges the MAC addresses of an Ethernet header, the addresses of an IPv4
/// header and the ports of a TCP header, each in place.
pub proof fn lemma_switch_exchanges(s: Seq<Header>, i: int)
    requires
        0 <= i < s.len(),
        s[i].1.len() >= min_size(s[i].0),
    ensures
        s[i].0 == Layers::Ether ==> {
            &&& switched(s)[i].1.subrange(0, 6) == s[i].1.subrange(6, 12)
            &&& switched(s)[i].1.subrange(6, 12) == s[i].1.subrange(0, 6)
            &&& switched(s)[i].1.subrange(12, s[i].1.len() as int) == s[i].1.subrange(12, s[i].1.len() as int)
        },
        s[i].0 == Layers::Ipv4 ==> {
            &&& switched(s)[i].1.subrange(12, 16) == s[i].1.subrange(16, 20)
            &&& switched(s)[i].1.subrange(16, 20) == s[i].1.subrange(12, 16)
            &&& switched(s)[i].1.subrange(0, 12) == s[i].1.subrange(0, 12)
            &&& switched(s)[i].1.subrange(20, s[i].1.len() as int) == s[i].1.subrange(20, s[i].1.len() as int)
        },
        s[i].0 == Layers::Tcp ==> {
            &&& switched(s)[i].1.subrange(0, 2) == s[i].1.subrange(2, 4)
            &&& switched(s)[i].1.subrange(2, 4) == s[i].1.subrange(0, 2)
            &&& switched(s)[i].1.subrange(4, s[i].1.len() as int) == s[i].1.subrange(4, s[i].1.len() as int)
        },
        switched(s)[i].0 == s[i].0,
        switched(s)[i].1.len() == s[i].1.len(),
{
    let b = s[i].1;
    let c = switched(s)[i].1;
    if s[i].0 == Layers::Ether {
        assert(c.subrange(0, 6) =~= b.subrange(6, 12));
        assert(c.subrange(6, 12) =~= b.subrange(0, 6));
        assert(c.subrange(12, b.len() as int) =~= b.subrange(12, b.len() as int));
    }
    if s[i].0 == Layers::Ipv4 {
        assert(c.subrange(12, 16) =~= b.subrange(16, 20));
        assert(c.subrange(16, 20) =~= b.subrange(12, 16));
        assert(c.subrange(0, 12) =~= b.subrange(0, 12));
        assert(c.subrange(20, b.len() as int) =~= b.subrange(20, b.len() as int));
    }
    if s[i].0 == Layers::Tcp {
        assert(c.subrange(0, 2) =~= b.subrange(2, 4));
        assert(c.subrange(2, 4) =~= b.subrange(0, 2));
        assert(c.subrange(4, b.len() as int) =~= b.subrange(4, b.len() as int));
    }
}

/// Bytes that, read as kind `k`, end exactly where their network layer says: Ethernet and VLAN
/// headers down to an IPv4 header whose total length, or an IPv6 header whose payload length,
/// covers the rest of the bytes and no more.
pub open spec fn ends_as_declared(k: Layers, b: Seq<u8>) -> bool
    decreases b.len(),
{
    match k {
        Layers::Ether | Layers::Vlan => {
            let hl = min_size(k) as int;
            &&& b.len() >= hl
            &&& match link_kind(be16(b, hl - 2)) {
                Some(c) => ends_as_declared(c, b.subrange(hl, b.len() as int)),
                None => false,
            }
        },
        Layers::Ipv4 => b.len() >= 20 && (b[0] as int % 16) * 4 <= b.len() && be16(b, 2) == b.len(),
        Layers::Ipv6 => b.len() >= 40 && 40 + be16(b, 4) == b.len(),
        _ => false,
    }
}

/// Padding trim: trailing bytes after a frame that ends where its network layer says are
/// dropped by `parse`, which gives the same chain as for the frame without them. Building that
/// chain therefore gives the same bytes with or without the padding.
pub proof fn lemma_padding_ignored(k: Layers, b: Seq<u8>, pad: Seq<u8>)
    requires
        ends_as_declared(k, b),
    ensures
        parse_stack(k, b + pad) == parse_stack(k, b),
    decreases b.len(),
{
    let bp = b + pad;
    match k {
        Layers::Ether | Layers::Vlan => {
            let hl = min_size(k) as int;
            let c = link_kind(be16(b, hl - 2)).unwrap();
            assert(be16(bp, hl - 2) == be16(b, hl - 2));
            assert(layout(k, bp).2 == layout(k, b).2);
            lemma_padding_ignored(c, b.subrange(hl, b.len() as int), pad);
            assert(bp.subrange(hl, bp.len() as int) =~= b.subrange(hl, b.len() as int) + pad);
            assert(bp.subrange(0, hl) =~= b.subrange(0, hl));
        },
        Layers::Ipv4 => {
            assert(bp[0] == b[0] && bp[9] == b[9]);
            assert(be16(bp, 2) == be16(b, 2));
            let hl = ipv4_header_len(b);
            assert(ipv4_header_len(bp) == hl);
            assert(declared_end(bp, hl, be16(bp, 2) as int) == b.len());
            assert(declared_end(b, hl, be16(b, 2) as int) == b.len());
            assert(bp.subrange(0, hl) =~= b.subrange(0, hl));
            assert(bp.subrange(hl, b.len() as int) =~= b.subrange(hl, b.len() as int));
        },
        Layers::Ipv6 => {
            assert(bp[6] == b[6]);
            assert(be16(bp, 4) == be16(b, 4));
            assert(declared_end(bp, 40, 40 + be16(bp, 4) as int) == b.len());
            assert(bp.subrange(0, 40) =~= b.subrange(0, 40));
            assert(bp.subrange(40, b.len() as int) =~= b.subrange(40, b.len() as int));
        },
        _ => {},
    }
}

} // verus!
