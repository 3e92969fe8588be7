//! Describing a packet as text: `Vlan(id: 10, prio: 3) / IPv4(src: 1.2.3.4, dst: 5.6.7.8)`.
use vstd::prelude::*;
use vstd::slice::slice_subrange;
use vstd::string::StringSliceAdditionalSpecFns;

use crate::bytes::put_bytes;
use crate::compose::added;
use crate::kinds::Layers;
use crate::layers::{Header, Ipv4Mut, LayerMut, VlanMut};
use crate::parse::opt_stack;
use crate::text::{
    ipv4_text, parse_dec, read_dec, read_ipv4, split_bytes, split_on, split_once,
    split_once_bytes, trim, trim_bytes, views,
};

verus! {

/// A `key: value` option, both sides trimmed.
pub open spec fn option_pair(part: Seq<u8>) -> Option<(Seq<u8>, Seq<u8>)> {
    match split_once(part, 58) {
        Some((k, v)) => Some((trim(k), trim(v))),
        None => None,
    }
}

/// The options of a list of comma-separated parts, in order; parts without `:` are skipped.
pub open spec fn pairs_of(parts: Seq<Seq<u8>>) -> Seq<(Seq<u8>, Seq<u8>)>
    decreases parts.len(),
{
    if parts.len() == 0 {
        Seq::empty()
    } else {
        let r = pairs_of(parts.drop_last());
        match option_pair(parts.last()) {
            Some(p) => r.push(p),
            None => r,
        }
    }
}

/// The options written in `s`.
pub open spec fn options_of(s: Seq<u8>) -> Seq<(Seq<u8>, Seq<u8>)> {
    pairs_of(split_on(s, 44))
}

/// The value of the last option named `key`.
pub open spec fn lookup(opts: Seq<(Seq<u8>, Seq<u8>)>, key: Seq<u8>) -> Option<Seq<u8>>
    decreases opts.len(),
{
    if opts.len() == 0 {
        None
    } else if opts.last().0 == key {
        Some(opts.last().1)
    } else {
        lookup(opts.drop_last(), key)
    }
}

pub open spec fn pair_views(v: Seq<(&[u8], &[u8])>) -> Seq<(Seq<u8>, Seq<u8>)> {
    v.map_values(|p: (&[u8], &[u8])| (p.0@, p.1@))
}

/// A VLAN header with the 12-bit identifier `v` written.
pub open spec fn put_vid(b: Seq<u8>, v: u16) -> Seq<u8> {
    b.update(0, ((b[0] as int / 16) * 16 + (v as int / 256) % 16) as u8).update(1, (v as int % 256) as u8)
}

/// A VLAN header with the 3-bit priority code point `v` written.
pub open spec fn put_pcp(b: Seq<u8>, v: u8) -> Seq<u8> {
    b.update(0, ((v % 8) as int * 32 + b[0] as int % 32) as u8)
}

/// The VLAN header that the options `s` describe: `id` and `prio` where they parse.
pub open spec fn vlan_header_of(s: Seq<u8>) -> Seq<u8> {
    let opts = options_of(s);
    let z = Seq::new(4, |i: int| 0u8);
    let z1 = match lookup(opts, seq![105u8, 100u8]) {
        Some(v) => match parse_dec(v, 65535) {
            Some(n) => put_vid(z, n as u16),
            None => z,
        },
        None => z,
    };
    match lookup(opts, seq![112u8, 114u8, 105u8, 111u8]) {
        Some(v) => match parse_dec(v, 255) {
            Some(p) => put_pcp(z1, p as u8),
            None => z1,
        },
        None => z1,
    }
}

/// The IPv4 header that the options `s` describe: `src` and `dst` where they parse.
pub open spec fn ipv4_header_of(s: Seq<u8>) -> Seq<u8> {
    let opts = options_of(s);
    let z = Seq::new(20, |i: int| 0u8);
    let z1 = match lookup(opts, seq![115u8, 114u8, 99u8]) {
        Some(v) => match ipv4_text(v) {
            Some(a) => put_bytes(z, 12, a),
            None => z,
        },
        None => z,
    };
    match lookup(opts, seq![100u8, 115u8, 116u8]) {
        Some(v) => match ipv4_text(v) {
            Some(a) => put_bytes(z1, 16, a),
            None => z1,
        },
        None => z1,
    }
}

/// Whether `s` is `prefix`, then anything, then `)`.
pub open spec fn framed(s: Seq<u8>, prefix: Seq<u8>) -> bool {
    s.len() >= prefix.len() + 1 && s.subrange(0, prefix.len() as int) == prefix && s.last() == 41
}

/// The options between the prefix and the closing `)`.
pub open spec fn inside(s: Seq<u8>, prefix: Seq<u8>) -> Seq<u8> {
    s.subrange(prefix.len() as int, s.len() - 1)
}

pub open spec fn vlan_prefix() -> Seq<u8> {
    seq![86u8, 108u8, 97u8, 110u8, 40u8]
}

pub open spec fn ipv4_prefix() -> Seq<u8> {
    seq![73u8, 80u8, 118u8, 52u8, 40u8]
}

/// The layer that one segment describes, if it names a known layer.
pub open spec fn segment_layer(seg: Seq<u8>) -> Option<Seq<Header>> {
    if framed(seg, vlan_prefix()) {
        Some(seq![(Layers::Vlan, vlan_header_of(inside(seg, vlan_prefix())))])
    } else if framed(seg, ipv4_prefix()) {
        Some(seq![(Layers::Ipv4, ipv4_header_of(inside(seg, ipv4_prefix())))])
    } else {
        None
    }
}

/// The chain that a list of segments describes: each segment trimmed of whitespace, the first
/// known layer is the root and each later one is added to it.
pub open spec fn crafted(segs: Seq<Seq<u8>>) -> Option<Seq<Header>>
    decreases segs.len(),
{
    if segs.len() == 0 {
        None
    } else {
        let prev = crafted(segs.drop_last());
        match segment_layer(trim(segs.last())) {
            None => prev,
            Some(x) => match prev {
                None => Some(x),
                Some(p) => Some(added(p, x).1),
            },
        }
    }
}

fn has_frame(s: &[u8], c0: u8, c1: u8, c2: u8, c3: u8, c4: u8) -> (r: bool)
    ensures
        r == framed(s@, seq![c0, c1, c2, c3, c4]),
{
    let n = s.len();
    let r = n >= 6 && s[0] == c0 && s[1] == c1 && s[2] == c2 && s[3] == c3 && s[4] == c4 && s[n
        - 1] == 41;
    proof {
        if n >= 6 {
            if r {
                assert(s@.subrange(0, 5) =~= seq![c0, c1, c2, c3, c4]);
            } else if s@.subrange(0, 5) == seq![c0, c1, c2, c3, c4] {
                assert(s@.subrange(0, 5)[0] == s@[0]);
                assert(s@.subrange(0, 5)[1] == s@[1]);
                assert(s@.subrange(0, 5)[2] == s@[2]);
                assert(s@.subrange(0, 5)[3] == s@[3]);
                assert(s@.subrange(0, 5)[4] == s@[4]);
            }
        }
    }
    r
}

fn options_in<'a>(s: &'a [u8]) -> (r: Vec<(&'a [u8], &'a [u8])>)
    ensures
        pair_views(r@) == options_of(s@),
{
    let parts = split_bytes(s, 44);
    let mut r: Vec<(&'a [u8], &'a [u8])> = Vec::new();
    let mut i: usize = 0;
    assert(views(parts@).subrange(0, 0) =~= Seq::<Seq<u8>>::empty());
    assert(pair_views(r@) =~= Seq::<(Seq<u8>, Seq<u8>)>::empty());
    while i < parts.len()
        invariant
            i <= parts@.len(),
            views(parts@) == split_on(s@, 44),
            pair_views(r@) == pairs_of(views(parts@).subrange(0, i as int)),
        decreases parts@.len() - i,
    {
        let ghost before = pair_views(r@);
        proof {
            let t = views(parts@).subrange(0, i + 1);
            assert(t.drop_last() =~= views(parts@).subrange(0, i as int));
            assert(t.last() == parts@[i as int]@);
        }
        match split_once_bytes(parts[i], 58) {
            Some((k, v)) => {
                let kt = trim_bytes(k);
                let vt = trim_bytes(v);
                r.push((kt, vt));
                assert(pair_views(r@) =~= before.push((kt@, vt@)));
            },
            None => {},
        }
        i = i + 1;
    }
    assert(views(parts@).subrange(0, parts@.len() as int) =~= views(parts@));
    r
}

/// Splits `options` into `key: value` pairs at commas, each side trimmed of ASCII whitespace,
/// in the order written; a part without `:` is skipped. Where a key repeats, the last pair is
/// the one that counts.
pub fn parse_options(options: &str) -> (r: Vec<(&[u8], &[u8])>)
    ensures
        pair_views(r@) == options_of(options.spec_bytes()),
{
    options_in(options.as_bytes())
}

fn find_option<'a>(opts: &Vec<(&'a [u8], &'a [u8])>, k0: u8, k1: u8, k2: u8, k3: u8, klen: usize) -> (r:
    Option<&'a [u8]>)
    requires
        2 <= klen <= 4,
    ensures
        match r {
            Some(v) => lookup(pair_views(opts@), seq![k0, k1, k2, k3].subrange(0, klen as int)) == Some(v@),
            None => lookup(pair_views(opts@), seq![k0, k1, k2, k3].subrange(0, klen as int)) is None,
        },
{
    let ghost key = seq![k0, k1, k2, k3].subrange(0, klen as int);
    let mut i: usize = opts.len();
    assert(pair_views(opts@).subrange(0, i as int) =~= pair_views(opts@));
    while i > 0
        invariant
            i <= opts@.len(),
            2 <= klen <= 4,
            key == seq![k0, k1, k2, k3].subrange(0, klen as int),
            lookup(pair_views(opts@), key) == lookup(pair_views(opts@).subrange(0, i as int), key),
        decreases i,
    {
        let (k, v) = opts[i - 1];
        let ghost t = pair_views(opts@).subrange(0, i as int);
        assert(t.last() == (k@, v@));
        assert(t.drop_last() =~= pair_views(opts@).subrange(0, i - 1));
        let same = k.len() == klen && k[0] == k0 && k[1] == k1 && (klen < 3 || k[2] == k2) && (klen
            < 4 || k[3] == k3);
        proof {
            if same {
                assert(k@ =~= key);
            } else if k@ == key {
                assert(k@[0] == key[0] && k@[1] == key[1]);
                if klen >= 3 {
                    assert(k@[2] == key[2]);
                }
                if klen >= 4 {
                    assert(k@[3] == key[3]);
                }
            }
        }
        if same {
            return Some(v);
        }
        i = i - 1;
    }
    None
}

fn vlan_in(s: &[u8]) -> (r: Option<VlanMut>)
    ensures
        match r {
            Some(v) => segment_layer(s@) == Some(v.stack()) && framed(s@, vlan_prefix()),
            None => !framed(s@, vlan_prefix()),
        },
{
    if !has_frame(s, 86, 108, 97, 110, 40) {
        assert(seq![86u8, 108u8, 97u8, 110u8, 40u8] =~= vlan_prefix());
        return None;
    }
    assert(seq![86u8, 108u8, 97u8, 110u8, 40u8] =~= vlan_prefix());
    let inner = slice_subrange(s, 5, s.len() - 1);
    let opts = options_in(inner);
    let mut vlan = VlanMut::new();
    let ghost z = Seq::new(4, |i: int| 0u8);
    assert(seq![105u8, 100u8, 0u8, 0u8].subrange(0, 2) =~= seq![105u8, 100u8]);
    assert(seq![112u8, 114u8, 105u8, 111u8].subrange(0, 4) =~= seq![112u8, 114u8, 105u8, 111u8]);
    if let Some(v) = find_option(&opts, 105, 100, 0, 0, 2) {
        if let Some(n) = read_dec(v, 65535) {
            vlan.set_vlan_identifier(n as u16);
        }
    }
    if let Some(v) = find_option(&opts, 112, 114, 105, 111, 4) {
        if let Some(p) = read_dec(v, 255) {
            vlan.set_priority_code_point(p as u8);
        }
    }
    assert(vlan.stack() =~= seq![(Layers::Vlan, vlan_header_of(inside(s@, vlan_prefix())))]);
    Some(vlan)
}

fn ipv4_in(s: &[u8]) -> (r: Option<Ipv4Mut>)
    ensures
        match r {
            Some(v) => framed(s@, ipv4_prefix()) && v.stack() == seq![(Layers::Ipv4, ipv4_header_of(inside(s@, ipv4_prefix())))],
            None => !framed(s@, ipv4_prefix()),
        },
{
    if !has_frame(s, 73, 80, 118, 52, 40) {
        assert(seq![73u8, 80u8, 118u8, 52u8, 40u8] =~= ipv4_prefix());
        return None;
    }
    assert(seq![73u8, 80u8, 118u8, 52u8, 40u8] =~= ipv4_prefix());
    let inner = slice_subrange(s, 5, s.len() - 1);
    let opts = options_in(inner);
    let mut ip = Ipv4Mut::new();
    assert(seq![115u8, 114u8, 99u8, 0u8].subrange(0, 3) =~= seq![115u8, 114u8, 99u8]);
    assert(seq![100u8, 115u8, 116u8, 0u8].subrange(0, 3) =~= seq![100u8, 115u8, 116u8]);
    if let Some(v) = find_option(&opts, 115, 114, 99, 0, 3) {
        if let Some(a) = read_ipv4(v) {
            ip.set_source(a);
        }
    }
    if let Some(v) = find_option(&opts, 100, 115, 116, 0, 3) {
        if let Some(a) = read_ipv4(v) {
            ip.set_destination(a);
        }
    }
    assert(ip.stack() =~= seq![(Layers::Ipv4, ipv4_header_of(inside(s@, ipv4_prefix())))]);
    Some(ip)
}

/// Reads a `Vlan(...)` segment: `None` unless `layer` is `Vlan(`, options, `)`.
pub fn parse_vlan(layer: &str) -> (r: Option<VlanMut>)
    ensures
        match r {
            Some(v) => segment_layer(layer.spec_bytes()) == Some(v.stack()),
            None => !framed(layer.spec_bytes(), vlan_prefix()),
        },
{
    vlan_in(layer.as_bytes())
}

/// Reads an `IPv4(...)` segment: `None` unless `layer` is `IPv4(`, options, `)`.
pub fn parse_ipv4(layer: &str) -> (r: Option<Ipv4Mut>)
    ensures
        match r {
            Some(v) => framed(layer.spec_bytes(), ipv4_prefix()) && v.stack() == seq![
                (Layers::Ipv4, ipv4_header_of(inside(layer.spec_bytes(), ipv4_prefix()))),
            ],
            None => !framed(layer.spec_bytes(), ipv4_prefix()),
        },
{
    ipv4_in(layer.as_bytes())
}

impl LayerMut {
    /// Reads a chain from its text description: segments separated by `/`, each, once trimmed
    /// of whitespace, a known layer with its options; the first known one is the root and the
    /// later ones are added to it. Segments that name no known layer are skipped.
    pub fn parse(input: &str) -> (r: Option<LayerMut>)
        ensures
            opt_stack(r) == crafted(split_on(input.spec_bytes(), 47)),
    {
        let segs = split_bytes(input.as_bytes(), 47);
        let mut packet: Option<LayerMut> = None;
        let mut i: usize = 0;
        assert(views(segs@).subrange(0, 0) =~= Seq::<Seq<u8>>::empty());
        while i < segs.len()
            invariant
                i <= segs@.len(),
                views(segs@) == split_on(input.spec_bytes(), 47),
                opt_stack(packet) == crafted(views(segs@).subrange(0, i as int)),
            decreases segs@.len() - i,
        {
            proof {
                let t = views(segs@).subrange(0, i + 1);
                assert(t.drop_last() =~= views(segs@).subrange(0, i as int));
                assert(t.last() == segs@[i as int]@);
            }
            let seg = trim_bytes(segs[i]);
            let layer = match vlan_in(seg) {
                Some(v) => {
                    proof {
                        v.lemma_stack();
                    }
                    Some(LayerMut::Vlan(v))
                },
                None => match ipv4_in(seg) {
                    Some(p) => {
                        proof {
                            p.lemma_stack();
                        }
                        Some(LayerMut::Ipv4(p))
                    },
                    None => None,
                },
            };
            if let Some(l) = layer {
                match packet {
                    Some(mut p) => {
                        proof {
                            p.lemma_stack_nonempty();
                        }
                        let _ = p.add(l);
                        packet = Some(p);
                    },
                    None => {
                        packet = Some(l);
                    },
                }
            }
            i = i + 1;
        }
        assert(views(segs@).subrange(0, segs@.len() as int) =~= views(segs@));
        packet
    }
}

} // verus!
