//! Parsing what `build` produced and building it again gives the same bytes.
use vstd::prelude::*;

use crate::checksum::{internet_checksum, ipv4_pseudo_checksum, ipv6_pseudo_checksum};
use crate::bytes::{be16, lemma_be16_put16, lemma_put16_same, lemma_put16_twice, put16};
use crate::kinds::{
    ipv4_code, ipv4_kind, ipv6_code, ipv6_kind, link_code, link_kind, min_size, Layers,
};
use crate::layers::Header;
use crate::parse::{parse_stack, tcp_header_len};
use crate::serialize::{
    build_stack, child_kind, child_ok, child_pseudo, finish, ipv4_defaults, ipv4_header_len,
    ipv6_defaults, prepare, Pseudo,
};

verus! {

/// A header that decodes back to itself once built: exactly the size of its kind (ARP, ICMP
/// and payload at least that), an IPv4 header length of 0 or 5 words, ARP, ICMP and payload
/// only at the top, and at the top a next-protocol field that selects no child.
pub open spec fn canonical_header(h: Header, top: bool) -> bool {
    let b = h.1;
    match h.0 {
        Layers::Ether => b.len() == 14 && (top ==> link_kind(be16(b, 12)) is None),
        Layers::Vlan => b.len() == 4 && (top ==> link_kind(be16(b, 2)) is None),
        Layers::Ipv4 => b.len() == 20 && (b[0] % 16 == 0 || b[0] % 16 == 5) && (top
            ==> ipv4_kind(b[9]) is None),
        Layers::Ipv6 => b.len() == 40 && (top ==> ipv6_kind(b[6]) is None),
        Layers::Udp => b.len() == 8,
        Layers::Tcp => b.len() == 20,
        Layers::Arp => b.len() >= 28 && top,
        Layers::Icmp => b.len() >= 4 && top,
        Layers::Payload => top,
    }
}

/// Every header of the chain is canonical.
pub open spec fn canonical(s: Seq<Header>) -> bool {
    &&& s.len() > 0
    &&& forall|i: int| 0 <= i < s.len() ==> canonical_header(#[trigger] s[i], i == s.len() - 1)
}

/// What rebuilding the parse of `bytes` as kind `k` must give: `bytes` again.
pub open spec fn rebuilds(k: Layers, bytes: Seq<u8>, id2: u16, ph: Pseudo) -> bool {
    &&& parse_stack(k, bytes) is Some
    &&& build_stack(parse_stack(k, bytes).unwrap(), id2, ph) == Some(bytes)
}

proof fn lemma_canonical_tail(s: Seq<Header>)
    requires
        canonical(s),
        s.len() > 1,
    ensures
        canonical(s.drop_first()),
{
    let t = s.drop_first();
    assert forall|i: int| 0 <= i < t.len() implies canonical_header(#[trigger] t[i], i == t.len() - 1) by {
        assert(t[i] == s[i + 1]);
    }
}

proof fn lemma_parse_kind(k: Layers, b: Seq<u8>)
    requires
        parse_stack(k, b) is Some,
    ensures
        parse_stack(k, b).unwrap().len() > 0,
        parse_stack(k, b).unwrap()[0].0 == k,
{
}

/// The inner bytes built for the upper chain `rest` under addresses `cp`.
spec fn inner_of(rest: Seq<Header>, ident: u16, cp: Pseudo) -> Seq<u8> {
    if rest.len() > 0 {
        build_stack(rest, ident, cp).unwrap()
    } else {
        Seq::empty()
    }
}

proof fn lemma_build_unfold(s: Seq<Header>, ident: u16, ph: Pseudo)
    requires
        s.len() > 0,
        build_stack(s, ident, ph) is Some,
    ensures
        ({
            let k = s[0].0;
            let rest = s.drop_first();
            let h = prepare(k, s[0].1, ident, child_kind(rest));
            &&& child_ok(k, child_kind(rest))
            &&& s[0].1.len() >= min_size(k)
            &&& rest.len() > 0 ==> build_stack(rest, ident, child_pseudo(k, h)) is Some
            &&& build_stack(s, ident, ph) == finish(k, h + inner_of(rest, ident, child_pseudo(k, h)), ph)
        }),
{
}

/// Building a chain whose top layer of kind `k` has header `h` and whose upper chain is `t`.
proof fn lemma_build_fold(k: Layers, h: Seq<u8>, t: Seq<Header>, id2: u16, ph: Pseudo)
    requires
        h.len() >= min_size(k),
        child_ok(k, child_kind(t)),
        t.len() > 0 ==> build_stack(t, id2, child_pseudo(k, prepare(k, h, id2, child_kind(t)))) is Some,
    ensures
        build_stack(seq![(k, h)] + t, id2, ph) == finish(
            k,
            prepare(k, h, id2, child_kind(t)) + inner_of(t, id2, child_pseudo(k, prepare(k, h, id2, child_kind(t)))),
            ph,
        ),
{
    let s = seq![(k, h)] + t;
    assert(s.drop_first() =~= t);
}

proof fn lemma_rebuild_link(s: Seq<Header>, ident: u16, id2: u16, ph: Pseudo)
    requires
        canonical(s),
        s[0].0 == Layers::Ether || s[0].0 == Layers::Vlan,
        build_stack(s, ident, ph) is Some,
        s.len() > 1 ==> rebuilds(
            s[1].0,
            build_stack(s.drop_first(), ident, Pseudo::Unset).unwrap(),
            id2,
            Pseudo::Unset,
        ),
    ensures
        rebuilds(s[0].0, build_stack(s, ident, ph).unwrap(), id2, ph),
{
    let k = s[0].0;
    let b = s[0].1;
    let rest = s.drop_first();
    let ck = child_kind(rest);
    let off: int = if k == Layers::Ether { 12 } else { 2 };
    let hl: int = min_size(k) as int;
    lemma_build_unfold(s, ident, ph);
    let h = prepare(k, b, ident, ck);
    let p = inner_of(rest, ident, Pseudo::Unset);
    let bb = h + p;
    assert(child_pseudo(k, h) == Pseudo::Unset);
    assert(build_stack(s, ident, ph) == Some(bb));
    assert(bb.subrange(0, hl) =~= h);
    assert(bb.subrange(hl, bb.len() as int) =~= p);
    assert(be16(bb, off) == be16(h, off));
    assert(canonical_header(s[0], rest.len() == 0));
    if rest.len() == 0 {
        assert(h == b);
        assert(p =~= Seq::<u8>::empty());
        assert(parse_stack(k, bb) == Some(seq![(k, h)]));
        assert(seq![(k, h)] =~= seq![(k, h)] + Seq::<Header>::empty());
        lemma_build_fold(k, h, Seq::<Header>::empty(), id2, ph);
        assert(h + Seq::<u8>::empty() =~= bb);
    } else {
        let c = rest[0].0;
        let code = link_code(c).unwrap();
        lemma_be16_put16(b, off, code);
        let tc = parse_stack(c, p).unwrap();
        lemma_parse_kind(c, p);
        let t = seq![(k, h)] + tc;
        assert(parse_stack(k, bb) == Some(t));
        lemma_put16_twice(b, off, code, code);
        assert(prepare(k, h, id2, Some(c)) == h);
        lemma_build_fold(k, h, tc, id2, ph);
    }
}

proof fn lemma_rebuild_leaf(s: Seq<Header>, ident: u16, id2: u16, ph: Pseudo)
    requires
        canonical(s),
        s[0].0 == Layers::Arp || s[0].0 == Layers::Icmp || s[0].0 == Layers::Payload,
        build_stack(s, ident, ph) is Some,
    ensures
        rebuilds(s[0].0, build_stack(s, ident, ph).unwrap(), id2, ph),
{
    let k = s[0].0;
    let b = s[0].1;
    assert(canonical_header(s[0], s.len() == 1));
    let rest = s.drop_first();
    assert(rest =~= Seq::<Header>::empty());
    lemma_build_unfold(s, ident, ph);
    assert(b + Seq::<u8>::empty() =~= b);
    let bb = build_stack(s, ident, ph).unwrap();
    assert(bb.subrange(0, bb.len() as int) =~= bb);
    assert(parse_stack(k, bb) == Some(seq![(k, bb)]));
    assert(seq![(k, bb)] =~= seq![(k, bb)] + Seq::<Header>::empty());
    lemma_build_fold(k, bb, Seq::<Header>::empty(), id2, ph);
    assert(bb + Seq::<u8>::empty() =~= bb);
    if k == Layers::Icmp {
        let z = put16(b, 2, 0);
        let cs = internet_checksum(z, 1);
        assert(bb == put16(z, 2, cs));
        lemma_put16_twice(b, 2, 0, 0);
        lemma_put16_twice(z, 2, cs, 0);
    }
}

proof fn lemma_build_payload(x: Seq<u8>, id: u16, ph: Pseudo)
    ensures
        build_stack(seq![(Layers::Payload, x)], id, ph) == Some(x),
{
    assert(seq![(Layers::Payload, x)].drop_first() =~= Seq::<Header>::empty());
    assert(x + Seq::<u8>::empty() =~= x);
}

proof fn lemma_rebuild_transport(s: Seq<Header>, ident: u16, id2: u16, ph: Pseudo)
    requires
        canonical(s),
        s[0].0 == Layers::Udp || s[0].0 == Layers::Tcp,
        build_stack(s, ident, ph) is Some,
    ensures
        rebuilds(s[0].0, build_stack(s, ident, ph).unwrap(), id2, ph),
{
    let k = s[0].0;
    let b = s[0].1;
    let rest = s.drop_first();
    lemma_build_unfold(s, ident, ph);
    assert(canonical_header(s[0], rest.len() == 0));
    if rest.len() > 0 {
        assert(rest[0] == s[1]);
        assert(canonical_header(s[1], 1 == s.len() - 1));
        assert(rest =~= seq![(Layers::Payload, rest[0].1)]);
        lemma_build_payload(rest[0].1, ident, Pseudo::Unset);
    }
    let h = prepare(k, b, ident, child_kind(rest));
    assert(child_pseudo(k, h) == Pseudo::Unset);
    let p = inner_of(rest, ident, Pseudo::Unset);
    let all = h + p;
    let n = all.len();
    let bb = build_stack(s, ident, ph).unwrap();
    assert(bb.len() == n);
    let hl: int = if k == Layers::Udp { 8 } else { 20 };
    if k == Layers::Tcp {
        assert(bb[12] == h[12]);
        assert(tcp_header_len(bb) == 20);
    }
    let hh = bb.subrange(0, hl);
    let body = bb.subrange(hl, n as int);
    assert(body =~= p);
    let t = if n > hl {
        seq![(Layers::Payload, body)]
    } else {
        Seq::<Header>::empty()
    };
    if n > hl {
        assert(body.subrange(0, body.len() as int) =~= body);
        assert(parse_stack(Layers::Payload, body) == Some(seq![(Layers::Payload, body)]));
        assert(parse_stack(k, bb) == Some(seq![(k, hh)] + t));
        lemma_build_payload(body, id2, Pseudo::Unset);
    } else {
        assert(parse_stack(k, bb) == Some(seq![(k, hh)]));
        assert(seq![(k, hh)] =~= seq![(k, hh)] + t);
    }
    if k == Layers::Tcp {
        assert(prepare(k, hh, id2, child_kind(t)) =~= hh);
    }
    assert(child_pseudo(k, hh) == Pseudo::Unset);
    lemma_build_fold(k, hh, t, id2, ph);
    assert(hh + inner_of(t, id2, Pseudo::Unset) =~= bb);
    if k == Layers::Udp {
        let t1 = put16(all, 4, n as u16);
        assert(be16(bb, 4) == n as u16);
        lemma_put16_same(bb, 4);
        match ph {
            Pseudo::Unset => {},
            Pseudo::V4(sa, da) => {
                let z = put16(t1, 6, 0);
                lemma_put16_twice(t1, 6, 0, 0);
                lemma_put16_twice(z, 6, ipv4_pseudo_checksum(z, 3, sa, da, 17), 0);
            },
            Pseudo::V6(sa, da) => {
                let z = put16(t1, 6, 0);
                lemma_put16_twice(t1, 6, 0, 0);
                lemma_put16_twice(z, 6, ipv6_pseudo_checksum(z, 3, sa, da, 17), 0);
            },
        }
    } else {
        match ph {
            Pseudo::Unset => {},
            Pseudo::V4(sa, da) => {
                let z = put16(all, 16, 0);
                lemma_put16_twice(all, 16, 0, 0);
                lemma_put16_twice(z, 16, ipv4_pseudo_checksum(z, 8, sa, da, 6), 0);
            },
            Pseudo::V6(sa, da) => {
                let z = put16(all, 16, 0);
                lemma_put16_twice(all, 16, 0, 0);
                lemma_put16_twice(z, 16, ipv6_pseudo_checksum(z, 8, sa, da, 6), 0);
            },
        }
    }
}

proof fn lemma_ipv4_defaults_fixed(b: Seq<u8>, ident: u16, id2: u16)
    requires
        b.len() == 20,
        b[0] % 16 == 0 || b[0] % 16 == 5,
        ident != 0,
    ensures
        ({
            let d = ipv4_defaults(b, ident);
            &&& d.len() == 20
            &&& d[0] as int % 16 == 5
            &&& d[0] as int / 16 != 0
            &&& be16(d, 4) != 0
            &&& d[8] != 0
            &&& forall|i: int| 0 <= i < 20 && i != 0 && i != 4 && i != 5 && i != 8 ==> d[i] == b[i]
        }),
{
    let v = b[0] as int / 16;
    let l = b[0] as int % 16;
    let nv = if v == 0 { 4 } else { v };
    let d0 = nv * 16 + 5;
    assert(0 <= v < 16);
    assert(d0 < 256);
    assert(d0 % 16 == 5 && d0 / 16 == nv) by (nonlinear_arith)
        requires
            d0 == nv * 16 + 5,
            0 <= nv < 16,
    ;
    let b1 = b.update(0, d0 as u8);
    if be16(b1, 4) == 0 {
        lemma_be16_put16(b1, 4, ident);
    }
}

proof fn lemma_ipv4_defaults_idem(hh: Seq<u8>, id2: u16)
    requires
        hh.len() == 20,
        hh[0] as int % 16 == 5,
        hh[0] as int / 16 != 0,
        be16(hh, 4) != 0,
        hh[8] != 0,
    ensures
        ipv4_defaults(hh, id2) == hh,
{
    let v = hh[0] as int / 16;
    assert(v * 16 + 5 == hh[0] as int);
    assert(hh.update(0, (v * 16 + 5) as u8) =~= hh);
}

proof fn lemma_rebuild_ipv4(s: Seq<Header>, ident: u16, id2: u16, ph: Pseudo)
    requires
        canonical(s),
        s[0].0 == Layers::Ipv4,
        ident != 0,
        build_stack(s, ident, ph) is Some,
        s.len() > 1 ==> rebuilds(
            s[1].0,
            build_stack(
                s.drop_first(),
                ident,
                child_pseudo(Layers::Ipv4, prepare(Layers::Ipv4, s[0].1, ident, child_kind(s.drop_first()))),
            ).unwrap(),
            id2,
            child_pseudo(Layers::Ipv4, prepare(Layers::Ipv4, s[0].1, ident, child_kind(s.drop_first()))),
        ),
    ensures
        rebuilds(s[0].0, build_stack(s, ident, ph).unwrap(), id2, ph),
{
    let k = Layers::Ipv4;
    let b = s[0].1;
    let rest = s.drop_first();
    let ck = child_kind(rest);
    lemma_build_unfold(s, ident, ph);
    assert(canonical_header(s[0], rest.len() == 0));
    lemma_ipv4_defaults_fixed(b, ident, id2);
    let d = ipv4_defaults(b, ident);
    let h = prepare(k, b, ident, ck);
    let cp = child_pseudo(k, h);
    let p = inner_of(rest, ident, cp);
    let all = h + p;
    let n = all.len();
    let z = put16(put16(all, 2, n as u16), 10, 0);
    assert(z[0] == d[0]);
    assert(ipv4_header_len(z) == 20);
    let cs = internet_checksum(z.subrange(0, 20), 5);
    let bb = put16(z, 10, cs);
    assert(build_stack(s, ident, ph) == Some(bb));
    assert(bb[0] == d[0]);
    assert(ipv4_header_len(bb) == 20);
    lemma_be16_put16(put16(all, 2, n as u16), 2, n as u16) ;
    assert(be16(bb, 2) == n as u16);
    let hh = bb.subrange(0, 20);
    let body = bb.subrange(20, n as int);
    assert(body =~= p);
    assert(hh[9] == h[9]);
    assert(hh.subrange(12, 16) =~= h.subrange(12, 16));
    assert(hh.subrange(16, 20) =~= h.subrange(16, 20));
    assert(child_pseudo(k, hh) == cp);
    assert(hh[0] == d[0] && hh[4] == d[4] && hh[5] == d[5] && hh[8] == d[8]);
    assert(be16(hh, 4) == be16(d, 4));
    lemma_ipv4_defaults_idem(hh, id2);
    let t = if rest.len() > 0 {
        parse_stack(rest[0].0, p).unwrap()
    } else {
        Seq::<Header>::empty()
    };
    if rest.len() > 0 {
        let c = rest[0].0;
        assert(rest[0] == s[1]);
        assert(ipv4_kind(ipv4_code(c).unwrap()) == Some(c));
        lemma_parse_kind(c, p);
        assert(parse_stack(k, bb) == Some(seq![(k, hh)] + t));
        assert(prepare(k, hh, id2, child_kind(t)) =~= hh);
    } else {
        assert(hh =~= bb);
        assert(parse_stack(k, bb) == Some(seq![(k, hh)]));
        assert(seq![(k, hh)] =~= seq![(k, hh)] + t);
    }
    lemma_build_fold(k, hh, t, id2, ph);
    assert(hh + inner_of(t, id2, cp) =~= bb);
    lemma_put16_same(bb, 2);
    lemma_put16_twice(put16(all, 2, n as u16), 10, 0, 0);
    lemma_put16_twice(z, 10, cs, 0);
}

proof fn lemma_rebuild_ipv6(s: Seq<Header>, ident: u16, id2: u16, ph: Pseudo)
    requires
        canonical(s),
        s[0].0 == Layers::Ipv6,
        build_stack(s, ident, ph) is Some,
        s.len() > 1 ==> rebuilds(
            s[1].0,
            build_stack(
                s.drop_first(),
                ident,
                child_pseudo(Layers::Ipv6, prepare(Layers::Ipv6, s[0].1, ident, child_kind(s.drop_first()))),
            ).unwrap(),
            id2,
            child_pseudo(Layers::Ipv6, prepare(Layers::Ipv6, s[0].1, ident, child_kind(s.drop_first()))),
        ),
    ensures
        rebuilds(s[0].0, build_stack(s, ident, ph).unwrap(), id2, ph),
{
    let k = Layers::Ipv6;
    let b = s[0].1;
    let rest = s.drop_first();
    let ck = child_kind(rest);
    lemma_build_unfold(s, ident, ph);
    assert(canonical_header(s[0], rest.len() == 0));
    let d = ipv6_defaults(b);
    assert(d[0] as int / 16 != 0);
    let h = prepare(k, b, ident, ck);
    let cp = child_pseudo(k, h);
    let p = inner_of(rest, ident, cp);
    let all = h + p;
    let n = all.len();
    let bb = put16(all, 4, (n - 40) as u16);
    assert(build_stack(s, ident, ph) == Some(bb));
    lemma_be16_put16(all, 4, (n - 40) as u16);
    let hh = bb.subrange(0, 40);
    let body = bb.subrange(40, n as int);
    assert(body =~= p);
    assert(hh[6] == h[6]);
    assert(hh.subrange(8, 24) =~= h.subrange(8, 24));
    assert(hh.subrange(24, 40) =~= h.subrange(24, 40));
    assert(child_pseudo(k, hh) == cp);
    assert(hh[0] == d[0]);
    assert(ipv6_defaults(hh) == hh);
    let t = if rest.len() > 0 {
        parse_stack(rest[0].0, p).unwrap()
    } else {
        Seq::<Header>::empty()
    };
    if rest.len() > 0 {
        let c = rest[0].0;
        assert(rest[0] == s[1]);
        assert(ipv6_kind(ipv6_code(c).unwrap()) == Some(c));
        lemma_parse_kind(c, p);
        assert(parse_stack(k, bb) == Some(seq![(k, hh)] + t));
        assert(prepare(k, hh, id2, child_kind(t)) =~= hh);
    } else {
        assert(hh =~= bb);
        assert(parse_stack(k, bb) == Some(seq![(k, hh)]));
        assert(seq![(k, hh)] =~= seq![(k, hh)] + t);
    }
    lemma_build_fold(k, hh, t, id2, ph);
    assert(hh + inner_of(t, id2, cp) =~= bb);
    lemma_put16_same(bb, 4);
}

proof fn lemma_rebuild(s: Seq<Header>, ident: u16, id2: u16, ph: Pseudo)
    requires
        canonical(s),
        ident != 0,
        build_stack(s, ident, ph) is Some,
    ensures
        rebuilds(s[0].0, build_stack(s, ident, ph).unwrap(), id2, ph),
    decreases s.len(),
{
    let k = s[0].0;
    let rest = s.drop_first();
    lemma_build_unfold(s, ident, ph);
    if rest.len() > 0 {
        lemma_canonical_tail(s);
        assert(rest[0] == s[1]);
        let h = prepare(k, s[0].1, ident, child_kind(rest));
        lemma_rebuild(rest, ident, id2, child_pseudo(k, h));
    }
    match k {
        Layers::Ether | Layers::Vlan => lemma_rebuild_link(s, ident, id2, ph),
        Layers::Ipv4 => lemma_rebuild_ipv4(s, ident, id2, ph),
        Layers::Ipv6 => lemma_rebuild_ipv6(s, ident, id2, ph),
        Layers::Udp | Layers::Tcp => lemma_rebuild_transport(s, ident, id2, ph),
        _ => lemma_rebuild_leaf(s, ident, id2, ph),
    }
}

/// Round trip: when a canonical chain builds to some bytes, parsing those bytes as the
/// chain's root kind succeeds, and building the parsed chain gives the same bytes again,
/// whatever identification the second build would give an IPv4 header without one. The
/// identification used by the first build must not be zero.
pub proof fn lemma_round_trip(s: Seq<Header>, ident: u16, id2: u16)
    requires
        canonical(s),
        ident != 0,
        build_stack(s, ident, Pseudo::Unset) is Some,
    ensures
        parse_stack(s[0].0, build_stack(s, ident, Pseudo::Unset).unwrap()) is Some,
        build_stack(
            parse_stack(s[0].0, build_stack(s, ident, Pseudo::Unset).unwrap()).unwrap(),
            id2,
            Pseudo::Unset,
        ) == build_stack(s, ident, Pseudo::Unset),
{
    lemma_rebuild(s, ident, id2, Pseudo::Unset);
}

/// Every IPv4 header of the chain that is long enough carries a non-zero identification.
pub open spec fn identified(s: Seq<Header>) -> bool {
    forall|i: int|
        0 <= i < s.len() && (#[trigger] s[i]).0 == Layers::Ipv4 && s[i].1.len() >= 20 ==> be16(s[i].1, 4) != 0
}

/// Where every IPv4 header already has an identification, the identification handed to
/// `build_stack` changes nothing.
pub proof fn lemma_identification_unused(s: Seq<Header>, id1: u16, id2: u16, ph: Pseudo)
    requires
        identified(s),
    ensures
        build_stack(s, id1, ph) == build_stack(s, id2, ph),
    decreases s.len(),
{
    if s.len() > 0 {
        let k = s[0].0;
        let b = s[0].1;
        let rest = s.drop_first();
        let ck = child_kind(rest);
        if k == Layers::Ipv4 && b.len() >= 20 {
            assert(be16(b, 4) != 0);
            let v = b[0] as int / 16;
            let l = b[0] as int % 16;
            let b1 = b.update(0, ((if v == 0 { 4 } else { v }) * 16 + (if l == 0 { 5 } else { l })) as u8);
            assert(be16(b1, 4) == be16(b, 4));
            assert(ipv4_defaults(b, id1) == ipv4_defaults(b, id2));
        }
        if b.len() >= min_size(k) {
            assert(prepare(k, b, id1, ck) == prepare(k, b, id2, ck));
        }
        assert forall|i: int|
            0 <= i < rest.len() && (#[trigger] rest[i]).0 == Layers::Ipv4 && rest[i].1.len() >= 20 implies be16(rest[i].1, 4) != 0 by {
            assert(rest[i] == s[i + 1]);
        }
        if rest.len() > 0 && b.len() >= min_size(k) {
            lemma_identification_unused(rest, id1, id2, child_pseudo(k, prepare(k, b, id1, ck)));
        }
    }
}

/// Round trip through builds that draw their identifications: for a canonical chain whose IPv4
/// headers all carry an identification, parsing what a build gave and building again gives
/// the same bytes, whatever either build drew.
pub proof fn lemma_round_trip_identified(s: Seq<Header>, id1: u16, id2: u16)
    requires
        canonical(s),
        identified(s),
        build_stack(s, id1, Pseudo::Unset) is Some,
    ensures
        parse_stack(s[0].0, build_stack(s, id1, Pseudo::Unset).unwrap()) is Some,
        build_stack(
            parse_stack(s[0].0, build_stack(s, id1, Pseudo::Unset).unwrap()).unwrap(),
            id2,
            Pseudo::Unset,
        ) == build_stack(s, id1, Pseudo::Unset),
{
    lemma_identification_unused(s, id1, 1, Pseudo::Unset);
    lemma_round_trip(s, 1, id2);
}

} // verus!
