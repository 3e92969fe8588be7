//! The composition engine: inserting layers, finding them, and mirroring addresses.
use vstd::prelude::*;

use crate::bytes::{swap_bytes, swap_ranges};
use crate::kinds::{allows, min_size, reorders, Layers};
use crate::layers::{
    headers_wf, upper_stack, ArpMut, EtherMut, Header, IcmpMut, Ipv4Mut, Ipv6Mut, LayerMut,
    PayloadMut, TcpMut, UdpMut, VlanMut,
};

verus! {

/// Inserting the chain `x` below a layer of kind `k` whose current upper chain is `rest`:
/// the success flag and the new upper chain.
pub open spec fn add_below(k: Layers, rest: Seq<Header>, x: Seq<Header>) -> (bool, Seq<Header>)
    decreases rest.len() + x.len(),
{
    if x.len() == 0 {
        (false, rest)
    } else if rest.len() > 0 {
        if reorders(k, rest[0].0, x[0].0) {
            (true, seq![x[0]] + add_below(x[0].0, x.drop_first(), rest).1)
        } else {
            let r = add_below(rest[0].0, rest.drop_first(), x);
            (r.0, seq![rest[0]] + r.1)
        }
    } else if allows(k, x[0].0) {
        (true, x)
    } else {
        (false, rest)
    }
}

/// Inserting the chain `x` into the chain `s`: the success flag and the resulting chain.
pub open spec fn added(s: Seq<Header>, x: Seq<Header>) -> (bool, Seq<Header>) {
    let r = add_below(s[0].0, s.drop_first(), x);
    (r.0, seq![s[0]] + r.1)
}

pub proof fn lemma_add_below_wf(k: Layers, rest: Seq<Header>, x: Seq<Header>)
    requires
        headers_wf(rest),
        headers_wf(x),
    ensures
        headers_wf(add_below(k, rest, x).1),
    decreases rest.len() + x.len(),
{
    if x.len() == 0 {
    } else if rest.len() > 0 {
        if reorders(k, rest[0].0, x[0].0) {
            lemma_add_below_wf(x[0].0, x.drop_first(), rest);
            let t = seq![x[0]] + add_below(x[0].0, x.drop_first(), rest).1;
            assert forall|i: int| 0 <= i < t.len() implies (#[trigger] t[i]).1.len() >= min_size(t[i].0) by {
                if i > 0 {
                    assert(t[i] == add_below(x[0].0, x.drop_first(), rest).1[i - 1]);
                }
            }
        } else {
            lemma_add_below_wf(rest[0].0, rest.drop_first(), x);
            let t = seq![rest[0]] + add_below(rest[0].0, rest.drop_first(), x).1;
            assert forall|i: int| 0 <= i < t.len() implies (#[trigger] t[i]).1.len() >= min_size(t[i].0) by {
                if i > 0 {
                    assert(t[i] == add_below(rest[0].0, rest.drop_first(), x).1[i - 1]);
                }
            }
        }
    }
}

pub proof fn lemma_added_wf(s: Seq<Header>, x: Seq<Header>)
    requires
        s.len() > 0,
        headers_wf(s),
        headers_wf(x),
    ensures
        headers_wf(added(s, x).1),
{
    lemma_add_below_wf(s[0].0, s.drop_first(), x);
    let t = added(s, x).1;
    assert forall|i: int| 0 <= i < t.len() implies (#[trigger] t[i]).1.len() >= min_size(t[i].0) by {
        if i > 0 {
            assert(t[i] == add_below(s[0].0, s.drop_first(), x).1[i - 1]);
        }
    }
}

pub proof fn lemma_add_below_unchanged(k: Layers, rest: Seq<Header>, x: Seq<Header>)
    ensures
        !add_below(k, rest, x).0 ==> add_below(k, rest, x).1 == rest,
    decreases rest.len() + x.len(),
{
    if x.len() > 0 && rest.len() > 0 && !reorders(k, rest[0].0, x[0].0) {
        lemma_add_below_unchanged(rest[0].0, rest.drop_first(), x);
        assert(seq![rest[0]] + rest.drop_first() =~= rest);
    }
}

/// Position of the first header of kind `k`.
pub open spec fn find_kind(s: Seq<Header>, k: Layers) -> Option<int>
    decreases s.len(),
{
    if s.len() == 0 {
        None
    } else if s[0].0 == k {
        Some(0)
    } else {
        match find_kind(s.drop_first(), k) {
            Some(i) => Some(i + 1),
            None => None,
        }
    }
}

/// The chain from the first header of kind `k` upward.
pub open spec fn found(s: Seq<Header>, k: Layers) -> Seq<Header> {
    s.subrange(find_kind(s, k).unwrap(), s.len() as int)
}

proof fn lemma_find_kind_range(s: Seq<Header>, k: Layers)
    ensures
        find_kind(s, k) matches Some(i) ==> 0 <= i < s.len() && s[i].0 == k,
    decreases s.len(),
{
    if s.len() > 0 && s[0].0 != k {
        lemma_find_kind_range(s.drop_first(), k);
    }
}

proof fn lemma_found_tail(s: Seq<Header>, k: Layers)
    requires
        s.len() > 0,
        s[0].0 != k,
    ensures
        find_kind(s, k) is Some <==> find_kind(s.drop_first(), k) is Some,
        find_kind(s, k) is Some ==> found(s, k) == found(s.drop_first(), k),
{
    lemma_find_kind_range(s.drop_first(), k);
    if find_kind(s, k) is Some {
        assert(found(s, k) =~= found(s.drop_first(), k));
    }
}

/// A header with its source and destination fields exchanged, where its kind has them.
pub open spec fn swap_fields(k: Layers, b: Seq<u8>) -> Seq<u8> {
    if b.len() < min_size(k) {
        b
    } else {
        match k {
        Layers::Ether => swap_ranges(b, 0, 6, 6),
        Layers::Ipv4 => swap_ranges(b, 12, 16, 4),
        Layers::Ipv6 => swap_ranges(b, 8, 24, 16),
        Layers::Udp | Layers::Tcp => swap_ranges(b, 0, 2, 2),
            _ => b,
        }
    }
}

/// Every header of the chain with its addresses exchanged.
pub open spec fn switched(s: Seq<Header>) -> Seq<Header> {
    Seq::new(s.len(), |i: int| (s[i].0, swap_fields(s[i].0, s[i].1)))
}


/// `b` cut to at most `n` bytes, then `payload` appended.
pub open spec fn with_payload(b: Seq<u8>, n: nat, payload: Seq<u8>) -> Seq<u8> {
    b.subrange(0, if b.len() < n { b.len() as int } else { n as int }) + payload
}

fn replace_payload(buf: &mut Vec<u8>, n: usize, payload: &[u8])
    ensures
        final(buf)@ == with_payload(old(buf)@, n as nat, payload@),
{
    buf.truncate(n);
    buf.extend_from_slice(payload);
    assert(buf@ =~= with_payload(old(buf)@, n as nat, payload@));
}

/// Inserts `layer` below a layer of kind `k` whose upper layer is `u`.
fn add_to_upper(k: Layers, u: &mut Option<Box<LayerMut>>, layer: LayerMut) -> (r: bool)
    ensures
        (r, upper_stack(*final(u))) == add_below(k, upper_stack(*old(u)), layer.stack()),
    decreases upper_stack(*old(u)).len() + layer.stack().len(), 2nat,
{
    proof {
        layer.lemma_stack_nonempty();
    }
    match u.take() {
        Some(c) => {
            proof {
                c.lemma_stack_nonempty();
            }
            if k.reorders_with(&c.kind(), &layer.kind()) {
                let mut l = layer;
                let _ = l.add(*c);
                *u = Some(Box::new(l));
                true
            } else {
                let mut c2 = *c;
                let r = c2.add(layer);
                *u = Some(Box::new(c2));
                r
            }
        },
        None => {
            if k.allows_child(&layer.kind()) {
                *u = Some(Box::new(layer));
                true
            } else {
                false
            }
        },
    }
}

/// Finds the first layer of kind `k` in the upper layer `u`.
fn find_in_upper<'a>(u: &'a mut Option<Box<LayerMut>>, k: &Layers) -> (r: Option<&'a mut LayerMut>)
    ensures
        r is Some <==> find_kind(upper_stack(*old(u)), *k) is Some,
        r matches Some(m) ==> (*m).stack() == found(upper_stack(*old(u)), *k),
    decreases upper_stack(*old(u)).len(), 2nat,
{
    match u {
        Some(c) => c.find_layer(k),
        None => None,
    }
}

fn switch_upper(u: &mut Option<Box<LayerMut>>)
    ensures
        upper_stack(*final(u)) == switched(upper_stack(*old(u))),
    decreases upper_stack(*old(u)).len(), 2nat,
{
    match u {
        Some(c) => c.switch_src_dst(),
        None => {
            assert(switched(Seq::<Header>::empty()) =~= Seq::<Header>::empty());
        },
    }
}

proof fn lemma_add_result(s: Seq<Header>, x: Seq<Header>, r: bool, t: Seq<Header>)
    requires
        s.len() > 0,
        (r, t) == add_below(s[0].0, s.drop_first(), x),
    ensures
        (r, seq![s[0]] + t) == added(s, x),
        !r ==> seq![s[0]] + t == s,
        headers_wf(s) && headers_wf(x) ==> headers_wf(seq![s[0]] + t),
{
    lemma_add_below_unchanged(s[0].0, s.drop_first(), x);
    assert(seq![s[0]] + s.drop_first() =~= s);
    if headers_wf(s) && headers_wf(x) {
        lemma_added_wf(s, x);
    }
}

impl EtherMut {
    /// Inserts `layer` into the chain: see `added`. On failure the chain is unchanged.
    pub fn add(&mut self, layer: LayerMut) -> (r: bool)
        ensures
            (r, final(self).stack()) == added(old(self).stack(), layer.stack()),
            !r ==> final(self).stack() == old(self).stack(),
            old(self).wf() && layer.wf() ==> final(self).wf(),
        decreases old(self).stack().len() + layer.stack().len(), 0nat,
    {
        let ghost s = self.stack();
        proof {
            assert(s.drop_first() =~= upper_stack(self.upper_layer));
        }
        let r = add_to_upper(Layers::Ether, &mut self.upper_layer, layer);
        proof {
            lemma_add_result(s, layer.stack(), r, upper_stack(self.upper_layer));
        }
        r
    }

    /// The first layer of kind `k` above this one.
    pub fn get_layer(&mut self, k: &Layers) -> (r: Option<&mut LayerMut>)
        ensures
            r is Some <==> find_kind(old(self).stack().drop_first(), *k) is Some,
            r matches Some(m) ==> (*m).stack() == found(old(self).stack().drop_first(), *k),
        decreases old(self).stack().len(), 0nat,
    {
        proof {
            assert(self.stack().drop_first() =~= upper_stack(self.upper_layer));
        }
        find_in_upper(&mut self.upper_layer, k)
    }

    /// Exchanges source and destination addresses here and in every layer above.
    pub fn switch_src_dst(&mut self)
        ensures
            final(self).stack() == switched(old(self).stack()),
        decreases old(self).stack().len(), 0nat,
    {
        let ghost s = self.stack();
        if self.buf.len() >= Layers::Ether.minimum_size() {
            swap_bytes(&mut self.buf, 0, 6, 6);
        }
        proof {
            assert(s.drop_first() =~= upper_stack(self.upper_layer));
        }
        switch_upper(&mut self.upper_layer);
        assert(self.stack() =~= switched(s));
    }

    /// Replaces whatever follows the fixed header bytes with `payload`.
    pub fn set_payload(&mut self, payload: &[u8])
        ensures
            final(self).stack() == old(self).stack().update(
                0,
                (Layers::Ether, with_payload(old(self).stack()[0].1, min_size(Layers::Ether), payload@)),
            ),
    {
        let ghost s = self.stack();
        replace_payload(&mut self.buf, Layers::Ether.minimum_size(), payload);
        assert(self.stack() =~= s.update(0, (Layers::Ether, with_payload(s[0].1, min_size(Layers::Ether), payload@))));
    }
}

impl VlanMut {
    /// Inserts `layer` into the chain: see `added`. On failure the chain is unchanged.
    pub fn add(&mut self, layer: LayerMut) -> (r: bool)
        ensures
            (r, final(self).stack()) == added(old(self).stack(), layer.stack()),
            !r ==> final(self).stack() == old(self).stack(),
            old(self).wf() && layer.wf() ==> final(self).wf(),
        decreases old(self).stack().len() + layer.stack().len(), 0nat,
    {
        let ghost s = self.stack();
        proof {
            assert(s.drop_first() =~= upper_stack(self.upper_layer));
        }
        let r = add_to_upper(Layers::Vlan, &mut self.upper_layer, layer);
        proof {
            lemma_add_result(s, layer.stack(), r, upper_stack(self.upper_layer));
        }
        r
    }

    /// The first layer of kind `k` above this one.
    pub fn get_layer(&mut self, k: &Layers) -> (r: Option<&mut LayerMut>)
        ensures
            r is Some <==> find_kind(old(self).stack().drop_first(), *k) is Some,
            r matches Some(m) ==> (*m).stack() == found(old(self).stack().drop_first(), *k),
        decreases old(self).stack().len(), 0nat,
    {
        proof {
            assert(self.stack().drop_first() =~= upper_stack(self.upper_layer));
        }
        find_in_upper(&mut self.upper_layer, k)
    }

    /// Exchanges source and destination addresses here and in every layer above.
    pub fn switch_src_dst(&mut self)
        ensures
            final(self).stack() == switched(old(self).stack()),
        decreases old(self).stack().len(), 0nat,
    {
        let ghost s = self.stack();
        proof {
            assert(s.drop_first() =~= upper_stack(self.upper_layer));
        }
        switch_upper(&mut self.upper_layer);
        assert(self.stack() =~= switched(s));
    }

    /// Replaces whatever follows the fixed header bytes with `payload`.
    pub fn set_payload(&mut self, payload: &[u8])
        ensures
            final(self).stack() == old(self).stack().update(
                0,
                (Layers::Vlan, with_payload(old(self).stack()[0].1, min_size(Layers::Vlan), payload@)),
            ),
    {
        let ghost s = self.stack();
        replace_payload(&mut self.buf, Layers::Vlan.minimum_size(), payload);
        assert(self.stack() =~= s.update(0, (Layers::Vlan, with_payload(s[0].1, min_size(Layers::Vlan), payload@))));
    }
}

impl ArpMut {
    /// Inserts `layer` into the chain: see `added`. On failure the chain is unchanged.
    pub fn add(&mut self, layer: LayerMut) -> (r: bool)
        ensures
            (r, final(self).stack()) == added(old(self).stack(), layer.stack()),
            !r ==> final(self).stack() == old(self).stack(),
            old(self).wf() && layer.wf() ==> final(self).wf(),
        decreases old(self).stack().len() + layer.stack().len(), 0nat,
    {
        let ghost s = self.stack();
        proof {
            assert(s.drop_first() =~= Seq::<Header>::empty());
            lemma_add_result(s, layer.stack(), false, Seq::<Header>::empty());
        }
        false
    }

    /// The first layer of kind `k` above this one.
    pub fn get_layer(&mut self, k: &Layers) -> (r: Option<&mut LayerMut>)
        ensures
            r is Some <==> find_kind(old(self).stack().drop_first(), *k) is Some,
            r matches Some(m) ==> (*m).stack() == found(old(self).stack().drop_first(), *k),
        decreases old(self).stack().len(), 0nat,
    {
        proof {
            assert(self.stack().drop_first() =~= Seq::<Header>::empty());
        }
        None
    }

    /// Exchanges source and destination addresses here and in every layer above.
    pub fn switch_src_dst(&mut self)
        ensures
            final(self).stack() == switched(old(self).stack()),
        decreases old(self).stack().len(), 0nat,
    {
        let ghost s = self.stack();
        assert(self.stack() =~= switched(s));
    }

    /// Replaces whatever follows the fixed header bytes with `payload`.
    pub fn set_payload(&mut self, payload: &[u8])
        ensures
            final(self).stack() == old(self).stack().update(
                0,
                (Layers::Arp, with_payload(old(self).stack()[0].1, min_size(Layers::Arp), payload@)),
            ),
    {
        let ghost s = self.stack();
        replace_payload(&mut self.buf, Layers::Arp.minimum_size(), payload);
        assert(self.stack() =~= s.update(0, (Layers::Arp, with_payload(s[0].1, min_size(Layers::Arp), payload@))));
    }
}

impl Ipv4Mut {
    /// Inserts `layer` into the chain: see `added`. On failure the chain is unchanged.
    pub fn add(&mut self, layer: LayerMut) -> (r: bool)
        ensures
            (r, final(self).stack()) == added(old(self).stack(), layer.stack()),
            !r ==> final(self).stack() == old(self).stack(),
            old(self).wf() && layer.wf() ==> final(self).wf(),
        decreases old(self).stack().len() + layer.stack().len(), 0nat,
    {
        let ghost s = self.stack();
        proof {
            assert(s.drop_first() =~= upper_stack(self.upper_layer));
        }
        let r = add_to_upper(Layers::Ipv4, &mut self.upper_layer, layer);
        proof {
            lemma_add_result(s, layer.stack(), r, upper_stack(self.upper_layer));
        }
        r
    }

    /// The first layer of kind `k` above this one.
    pub fn get_layer(&mut self, k: &Layers) -> (r: Option<&mut LayerMut>)
        ensures
            r is Some <==> find_kind(old(self).stack().drop_first(), *k) is Some,
            r matches Some(m) ==> (*m).stack() == found(old(self).stack().drop_first(), *k),
        decreases old(self).stack().len(), 0nat,
    {
        proof {
            assert(self.stack().drop_first() =~= upper_stack(self.upper_layer));
        }
        find_in_upper(&mut self.upper_layer, k)
    }

    /// Exchanges source and destination addresses here and in every layer above.
    pub fn switch_src_dst(&mut self)
        ensures
            final(self).stack() == switched(old(self).stack()),
        decreases old(self).stack().len(), 0nat,
    {
        let ghost s = self.stack();
        if self.buf.len() >= Layers::Ipv4.minimum_size() {
            swap_bytes(&mut self.buf, 12, 16, 4);
        }
        proof {
            assert(s.drop_first() =~= upper_stack(self.upper_layer));
        }
        switch_upper(&mut self.upper_layer);
        assert(self.stack() =~= switched(s));
    }

    /// Replaces whatever follows the fixed header bytes with `payload`.
    pub fn set_payload(&mut self, payload: &[u8])
        ensures
            final(self).stack() == old(self).stack().update(
                0,
                (Layers::Ipv4, with_payload(old(self).stack()[0].1, min_size(Layers::Ipv4), payload@)),
            ),
    {
        let ghost s = self.stack();
        replace_payload(&mut self.buf, Layers::Ipv4.minimum_size(), payload);
        assert(self.stack() =~= s.update(0, (Layers::Ipv4, with_payload(s[0].1, min_size(Layers::Ipv4), payload@))));
    }
}

impl Ipv6Mut {
    /// Inserts `layer` into the chain: see `added`. On failure the chain is unchanged.
    pub fn add(&mut self, layer: LayerMut) -> (r: bool)
        ensures
            (r, final(self).stack()) == added(old(self).stack(), layer.stack()),
            !r ==> final(self).stack() == old(self).stack(),
            old(self).wf() && layer.wf() ==> final(self).wf(),
        decreases old(self).stack().len() + layer.stack().len(), 0nat,
    {
        let ghost s = self.stack();
        proof {
            assert(s.drop_first() =~= upper_stack(self.upper_layer));
        }
        let r = add_to_upper(Layers::Ipv6, &mut self.upper_layer, layer);
        proof {
            lemma_add_result(s, layer.stack(), r, upper_stack(self.upper_layer));
        }
        r
    }

    /// The first layer of kind `k` above this one.
    pub fn get_layer(&mut self, k: &Layers) -> (r: Option<&mut LayerMut>)
        ensures
            r is Some <==> find_kind(old(self).stack().drop_first(), *k) is Some,
            r matches Some(m) ==> (*m).stack() == found(old(self).stack().drop_first(), *k),
        decreases old(self).stack().len(), 0nat,
    {
        proof {
            assert(self.stack().drop_first() =~= upper_stack(self.upper_layer));
        }
        find_in_upper(&mut self.upper_layer, k)
    }

    /// Exchanges source and destination addresses here and in every layer above.
    pub fn switch_src_dst(&mut self)
        ensures
            final(self).stack() == switched(old(self).stack()),
        decreases old(self).stack().len(), 0nat,
    {
        let ghost s = self.stack();
        if self.buf.len() >= Layers::Ipv6.minimum_size() {
            swap_bytes(&mut self.buf, 8, 24, 16);
        }
        proof {
            assert(s.drop_first() =~= upper_stack(self.upper_layer));
        }
        switch_upper(&mut self.upper_layer);
        assert(self.stack() =~= switched(s));
    }

    /// Replaces whatever follows the fixed header bytes with `payload`.
    pub fn set_payload(&mut self, payload: &[u8])
        ensures
            final(self).stack() == old(self).stack().update(
                0,
                (Layers::Ipv6, with_payload(old(self).stack()[0].1, min_size(Layers::Ipv6), payload@)),
            ),
    {
        let ghost s = self.stack();
        replace_payload(&mut self.buf, Layers::Ipv6.minimum_size(), payload);
        assert(self.stack() =~= s.update(0, (Layers::Ipv6, with_payload(s[0].1, min_size(Layers::Ipv6), payload@))));
    }
}

impl IcmpMut {
    /// Inserts `layer` into the chain: see `added`. On failure the chain is unchanged.
    pub fn add(&mut self, layer: LayerMut) -> (r: bool)
        ensures
            (r, final(self).stack()) == added(old(self).stack(), layer.stack()),
            !r ==> final(self).stack() == old(self).stack(),
            old(self).wf() && layer.wf() ==> final(self).wf(),
        decreases old(self).stack().len() + layer.stack().len(), 0nat,
    {
        let ghost s = self.stack();
        proof {
            assert(s.drop_first() =~= Seq::<Header>::empty());
            lemma_add_result(s, layer.stack(), false, Seq::<Header>::empty());
        }
        false
    }

    /// The first layer of kind `k` above this one.
    pub fn get_layer(&mut self, k: &Layers) -> (r: Option<&mut LayerMut>)
        ensures
            r is Some <==> find_kind(old(self).stack().drop_first(), *k) is Some,
            r matches Some(m) ==> (*m).stack() == found(old(self).stack().drop_first(), *k),
        decreases old(self).stack().len(), 0nat,
    {
        proof {
            assert(self.stack().drop_first() =~= Seq::<Header>::empty());
        }
        None
    }

    /// Exchanges source and destination addresses here and in every layer above.
    pub fn switch_src_dst(&mut self)
        ensures
            final(self).stack() == switched(old(self).stack()),
        decreases old(self).stack().len(), 0nat,
    {
        let ghost s = self.stack();
        assert(self.stack() =~= switched(s));
    }

    /// Replaces whatever follows the fixed header bytes with `payload`.
    pub fn set_payload(&mut self, payload: &[u8])
        ensures
            final(self).stack() == old(self).stack().update(
                0,
                (Layers::Icmp, with_payload(old(self).stack()[0].1, min_size(Layers::Icmp), payload@)),
            ),
    {
        let ghost s = self.stack();
        replace_payload(&mut self.buf, Layers::Icmp.minimum_size(), payload);
        assert(self.stack() =~= s.update(0, (Layers::Icmp, with_payload(s[0].1, min_size(Layers::Icmp), payload@))));
    }
}

impl UdpMut {
    /// Inserts `layer` into the chain: see `added`. On failure the chain is unchanged.
    pub fn add(&mut self, layer: LayerMut) -> (r: bool)
        ensures
            (r, final(self).stack()) == added(old(self).stack(), layer.stack()),
            !r ==> final(self).stack() == old(self).stack(),
            old(self).wf() && layer.wf() ==> final(self).wf(),
        decreases old(self).stack().len() + layer.stack().len(), 0nat,
    {
        let ghost s = self.stack();
        proof {
            assert(s.drop_first() =~= upper_stack(self.upper_layer));
        }
        let r = add_to_upper(Layers::Udp, &mut self.upper_layer, layer);
        proof {
            lemma_add_result(s, layer.stack(), r, upper_stack(self.upper_layer));
        }
        r
    }

    /// The first layer of kind `k` above this one.
    pub fn get_layer(&mut self, k: &Layers) -> (r: Option<&mut LayerMut>)
        ensures
            r is Some <==> find_kind(old(self).stack().drop_first(), *k) is Some,
            r matches Some(m) ==> (*m).stack() == found(old(self).stack().drop_first(), *k),
        decreases old(self).stack().len(), 0nat,
    {
        proof {
            assert(self.stack().drop_first() =~= upper_stack(self.upper_layer));
        }
        find_in_upper(&mut self.upper_layer, k)
    }

    /// Exchanges source and destination addresses here and in every layer above.
    pub fn switch_src_dst(&mut self)
        ensures
            final(self).stack() == switched(old(self).stack()),
        decreases old(self).stack().len(), 0nat,
    {
        let ghost s = self.stack();
        if self.buf.len() >= Layers::Udp.minimum_size() {
            swap_bytes(&mut self.buf, 0, 2, 2);
        }
        proof {
            assert(s.drop_first() =~= upper_stack(self.upper_layer));
        }
        switch_upper(&mut self.upper_layer);
        assert(self.stack() =~= switched(s));
    }

    /// Replaces whatever follows the fixed header bytes with `payload`.
    pub fn set_payload(&mut self, payload: &[u8])
        ensures
            final(self).stack() == old(self).stack().update(
                0,
                (Layers::Udp, with_payload(old(self).stack()[0].1, min_size(Layers::Udp), payload@)),
            ),
    {
        let ghost s = self.stack();
        replace_payload(&mut self.buf, Layers::Udp.minimum_size(), payload);
        assert(self.stack() =~= s.update(0, (Layers::Udp, with_payload(s[0].1, min_size(Layers::Udp), payload@))));
    }
}

impl TcpMut {
    /// Inserts `layer` into the chain: see `added`. On failure the chain is unchanged.
    pub fn add(&mut self, layer: LayerMut) -> (r: bool)
        ensures
            (r, final(self).stack()) == added(old(self).stack(), layer.stack()),
            !r ==> final(self).stack() == old(self).stack(),
            old(self).wf() && layer.wf() ==> final(self).wf(),
        decreases old(self).stack().len() + layer.stack().len(), 0nat,
    {
        let ghost s = self.stack();
        proof {
            assert(s.drop_first() =~= upper_stack(self.upper_layer));
        }
        let r = add_to_upper(Layers::Tcp, &mut self.upper_layer, layer);
        proof {
            lemma_add_result(s, layer.stack(), r, upper_stack(self.upper_layer));
        }
        r
    }

    /// The first layer of kind `k` above this one.
    pub fn get_layer(&mut self, k: &Layers) -> (r: Option<&mut LayerMut>)
        ensures
            r is Some <==> find_kind(old(self).stack().drop_first(), *k) is Some,
            r matches Some(m) ==> (*m).stack() == found(old(self).stack().drop_first(), *k),
        decreases old(self).stack().len(), 0nat,
    {
        proof {
            assert(self.stack().drop_first() =~= upper_stack(self.upper_layer));
        }
        find_in_upper(&mut self.upper_layer, k)
    }

    /// Exchanges source and destination addresses here and in every layer above.
    pub fn switch_src_dst(&mut self)
        ensures
            final(self).stack() == switched(old(self).stack()),
        decreases old(self).stack().len(), 0nat,
    {
        let ghost s = self.stack();
        if self.buf.len() >= Layers::Tcp.minimum_size() {
            swap_bytes(&mut self.buf, 0, 2, 2);
        }
        proof {
            assert(s.drop_first() =~= upper_stack(self.upper_layer));
        }
        switch_upper(&mut self.upper_layer);
        assert(self.stack() =~= switched(s));
    }

    /// Replaces whatever follows the fixed header bytes with `payload`.
    pub fn set_payload(&mut self, payload: &[u8])
        ensures
            final(self).stack() == old(self).stack().update(
                0,
                (Layers::Tcp, with_payload(old(self).stack()[0].1, min_size(Layers::Tcp), payload@)),
            ),
    {
        let ghost s = self.stack();
        replace_payload(&mut self.buf, Layers::Tcp.minimum_size(), payload);
        assert(self.stack() =~= s.update(0, (Layers::Tcp, with_payload(s[0].1, min_size(Layers::Tcp), payload@))));
    }
}

impl PayloadMut {
    /// Inserts `layer` into the chain: see `added`. On failure the chain is unchanged.
    pub fn add(&mut self, layer: LayerMut) -> (r: bool)
        ensures
            (r, final(self).stack()) == added(old(self).stack(), layer.stack()),
            !r ==> final(self).stack() == old(self).stack(),
            old(self).wf() && layer.wf() ==> final(self).wf(),
        decreases old(self).stack().len() + layer.stack().len(), 0nat,
    {
        let ghost s = self.stack();
        proof {
            assert(s.drop_first() =~= Seq::<Header>::empty());
            lemma_add_result(s, layer.stack(), false, Seq::<Header>::empty());
        }
        false
    }

    /// The first layer of kind `k` above this one.
    pub fn get_layer(&mut self, k: &Layers) -> (r: Option<&mut LayerMut>)
        ensures
            r is Some <==> find_kind(old(self).stack().drop_first(), *k) is Some,
            r matches Some(m) ==> (*m).stack() == found(old(self).stack().drop_first(), *k),
        decreases old(self).stack().len(), 0nat,
    {
        proof {
            assert(self.stack().drop_first() =~= Seq::<Header>::empty());
        }
        None
    }

    /// Exchanges source and destination addresses here and in every layer above.
    pub fn switch_src_dst(&mut self)
        ensures
            final(self).stack() == switched(old(self).stack()),
        decreases old(self).stack().len(), 0nat,
    {
        let ghost s = self.stack();
        assert(self.stack() =~= switched(s));
    }

    /// Replaces whatever follows the fixed header bytes with `payload`.
    pub fn set_payload(&mut self, payload: &[u8])
        ensures
            final(self).stack() == old(self).stack().update(
                0,
                (Layers::Payload, with_payload(old(self).stack()[0].1, min_size(Layers::Payload), payload@)),
            ),
    {
        let ghost s = self.stack();
        replace_payload(&mut self.buf, Layers::Payload.minimum_size(), payload);
        assert(self.stack() =~= s.update(0, (Layers::Payload, with_payload(s[0].1, min_size(Layers::Payload), payload@))));
    }
}

impl LayerMut {
    /// Inserts `layer` into the chain: see `added`. On failure the chain is unchanged.
    pub fn add(&mut self, layer: LayerMut) -> (r: bool)
        ensures
            (r, final(self).stack()) == added(old(self).stack(), layer.stack()),
            !r ==> final(self).stack() == old(self).stack(),
            old(self).wf() && layer.wf() ==> final(self).wf(),
        decreases old(self).stack().len() + layer.stack().len(), 1nat,
    {
        match self {
            LayerMut::Ether(n) => n.add(layer),
            LayerMut::Vlan(n) => n.add(layer),
            LayerMut::Arp(n) => n.add(layer),
            LayerMut::Ipv4(n) => n.add(layer),
            LayerMut::Ipv6(n) => n.add(layer),
            LayerMut::Icmp(n) => n.add(layer),
            LayerMut::Udp(n) => n.add(layer),
            LayerMut::Tcp(n) => n.add(layer),
            LayerMut::Payload(n) => n.add(layer),
        }
    }

    /// The first layer of kind `k`, this one included.
    pub fn find_layer(&mut self, k: &Layers) -> (r: Option<&mut LayerMut>)
        ensures
            r is Some <==> find_kind(old(self).stack(), *k) is Some,
            r matches Some(m) ==> (*m).stack() == found(old(self).stack(), *k),
        decreases old(self).stack().len(), 1nat,
    {
        let ghost s = self.stack();
        proof {
            self.lemma_stack_nonempty();
            assert(s.subrange(0, s.len() as int) =~= s);
            if s[0].0 != *k {
                lemma_found_tail(s, *k);
            }
        }
        if self.kind() == *k {
            return Some(self);
        }
        match self {
            LayerMut::Ether(n) => n.get_layer(k),
            LayerMut::Vlan(n) => n.get_layer(k),
            LayerMut::Arp(n) => n.get_layer(k),
            LayerMut::Ipv4(n) => n.get_layer(k),
            LayerMut::Ipv6(n) => n.get_layer(k),
            LayerMut::Icmp(n) => n.get_layer(k),
            LayerMut::Udp(n) => n.get_layer(k),
            LayerMut::Tcp(n) => n.get_layer(k),
            LayerMut::Payload(n) => n.get_layer(k),
        }
    }

    /// Exchanges source and destination addresses in every layer that has them.
    pub fn switch_src_dst(&mut self)
        ensures
            final(self).stack() == switched(old(self).stack()),
        decreases old(self).stack().len(), 1nat,
    {
        match self {
            LayerMut::Ether(n) => n.switch_src_dst(),
            LayerMut::Vlan(n) => n.switch_src_dst(),
            LayerMut::Arp(n) => n.switch_src_dst(),
            LayerMut::Ipv4(n) => n.switch_src_dst(),
            LayerMut::Ipv6(n) => n.switch_src_dst(),
            LayerMut::Icmp(n) => n.switch_src_dst(),
            LayerMut::Udp(n) => n.switch_src_dst(),
            LayerMut::Tcp(n) => n.switch_src_dst(),
            LayerMut::Payload(n) => n.switch_src_dst(),
        }
    }
}

} // verus!
