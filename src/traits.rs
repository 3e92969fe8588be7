//! The operations every layer type offers, as traits for code generic over layer kinds.
use vstd::prelude::*;

use crate::kinds::Layers;
use crate::layers::{
    ArpMut, EtherMut, IcmpMut, Ipv4Mut, Ipv6Mut, LayerMut, PayloadMut, TcpMut, UdpMut, VlanMut,
};
use crate::views::{Arp, Ether, Icmp, Ipv4, Ipv6, Layer, Payload, Tcp, Udp, Vlan};

verus! {

/// Operations on an owned, mutable layer.
pub trait LayerMutable: Sized {
    /// A zeroed header of the minimum size, with nothing above it.
    fn new() -> Self;

    /// Decodes `buf` as this kind of layer and everything it carries.
    fn from_buf(buf: Vec<u8>) -> Option<Self>;

    /// The first layer of kind `layer` above this one.
    fn get_layer(&mut self, layer: &Layers) -> Option<&mut LayerMut>;

    /// Replaces whatever follows the fixed header bytes with `payload`.
    fn set_payload(&mut self, payload: &[u8]);

    /// Inserts `layer` into the chain; false, with the chain unchanged, where it fits nowhere.
    fn add(&mut self, layer: LayerMut) -> bool;

    /// Exchanges source and destination addresses here and in every layer above.
    fn switch_src_dst(&mut self);

    /// Builds the chain into the bytes to send.
    fn build(self) -> Option<Vec<u8>>;
}

/// Operations on a read-only layer borrowing its bytes.
pub trait LayerImmutable<'a>: Sized {
    /// The owned type of the same kind.
    type LayerMutType;

    /// A view of `buf`.
    fn new(buf: &'a [u8]) -> Self;

    /// An owned, mutable copy of the chain decoded from these bytes.
    fn as_mut(&self) -> Option<Self::LayerMutType>;

    /// The bytes this view borrows.
    fn get_buf(&self) -> &[u8];

    /// The first layer of kind `layer` above this one, viewed in place.
    fn get_layer(&self, layer: Layers) -> Option<Layer<'a>>;

    /// The first layer of kind `layer` above a header of this kind at the start of `buf`.
    fn get_layer_from_buf(buf: &[u8], layer: Layers) -> Option<Layer<'_>>;
}

impl LayerMutable for EtherMut {
    fn new() -> Self {
        EtherMut::new()
    }

    fn from_buf(buf: Vec<u8>) -> Option<Self> {
        EtherMut::from_buf(buf)
    }

    fn get_layer(&mut self, layer: &Layers) -> Option<&mut LayerMut> {
        EtherMut::get_layer(self, layer)
    }

    fn set_payload(&mut self, payload: &[u8]) {
        EtherMut::set_payload(self, payload)
    }

    fn add(&mut self, layer: LayerMut) -> bool {
        EtherMut::add(self, layer)
    }

    fn switch_src_dst(&mut self) {
        EtherMut::switch_src_dst(self)
    }

    fn build(self) -> Option<Vec<u8>> {
        EtherMut::build(self)
    }
}

impl<'a> LayerImmutable<'a> for Ether<'a> {
    type LayerMutType = EtherMut;

    fn new(buf: &'a [u8]) -> Self {
        Ether::new(buf)
    }

    fn as_mut(&self) -> Option<EtherMut> {
        Ether::as_mut(self)
    }

    fn get_buf(&self) -> &[u8] {
        Ether::get_buf(self)
    }

    fn get_layer(&self, layer: Layers) -> Option<Layer<'a>> {
        Ether::get_layer(self, layer)
    }

    fn get_layer_from_buf(buf: &[u8], layer: Layers) -> Option<Layer<'_>> {
        Ether::get_layer_from_buf(buf, layer)
    }
}

impl LayerMutable for VlanMut {
    fn new() -> Self {
        VlanMut::new()
    }

    fn from_buf(buf: Vec<u8>) -> Option<Self> {
        VlanMut::from_buf(buf)
    }

    fn get_layer(&mut self, layer: &Layers) -> Option<&mut LayerMut> {
        VlanMut::get_layer(self, layer)
    }

    fn set_payload(&mut self, payload: &[u8]) {
        VlanMut::set_payload(self, payload)
    }

    fn add(&mut self, layer: LayerMut) -> bool {
        VlanMut::add(self, layer)
    }

    fn switch_src_dst(&mut self) {
        VlanMut::switch_src_dst(self)
    }

    fn build(self) -> Option<Vec<u8>> {
        VlanMut::build(self)
    }
}

impl<'a> LayerImmutable<'a> for Vlan<'a> {
    type LayerMutType = VlanMut;

    fn new(buf: &'a [u8]) -> Self {
        Vlan::new(buf)
    }

    fn as_mut(&self) -> Option<VlanMut> {
        Vlan::as_mut(self)
    }

    fn get_buf(&self) -> &[u8] {
        Vlan::get_buf(self)
    }

    fn get_layer(&self, layer: Layers) -> Option<Layer<'a>> {
        Vlan::get_layer(self, layer)
    }

    fn get_layer_from_buf(buf: &[u8], layer: Layers) -> Option<Layer<'_>> {
        Vlan::get_layer_from_buf(buf, layer)
    }
}

impl LayerMutable for ArpMut {
    fn new() -> Self {
        ArpMut::new()
    }

    fn from_buf(buf: Vec<u8>) -> Option<Self> {
        ArpMut::from_buf(buf)
    }

    fn get_layer(&mut self, layer: &Layers) -> Option<&mut LayerMut> {
        ArpMut::get_layer(self, layer)
    }

    fn set_payload(&mut self, payload: &[u8]) {
        ArpMut::set_payload(self, payload)
    }

    fn add(&mut self, layer: LayerMut) -> bool {
        ArpMut::add(self, layer)
    }

    fn switch_src_dst(&mut self) {
        ArpMut::switch_src_dst(self)
    }

    fn build(self) -> Option<Vec<u8>> {
        ArpMut::build(self)
    }
}

impl<'a> LayerImmutable<'a> for Arp<'a> {
    type LayerMutType = ArpMut;

    fn new(buf: &'a [u8]) -> Self {
        Arp::new(buf)
    }

    fn as_mut(&self) -> Option<ArpMut> {
        Arp::as_mut(self)
    }

    fn get_buf(&self) -> &[u8] {
        Arp::get_buf(self)
    }

    fn get_layer(&self, layer: Layers) -> Option<Layer<'a>> {
        Arp::get_layer(self, layer)
    }

    fn get_layer_from_buf(buf: &[u8], layer: Layers) -> Option<Layer<'_>> {
        Arp::get_layer_from_buf(buf, layer)
    }
}

impl LayerMutable for Ipv4Mut {
    fn new() -> Self {
        Ipv4Mut::new()
    }

    fn from_buf(buf: Vec<u8>) -> Option<Self> {
        Ipv4Mut::from_buf(buf)
    }

    fn get_layer(&mut self, layer: &Layers) -> Option<&mut LayerMut> {
        Ipv4Mut::get_layer(self, layer)
    }

    fn set_payload(&mut self, payload: &[u8]) {
        Ipv4Mut::set_payload(self, payload)
    }

    fn add(&mut self, layer: LayerMut) -> bool {
        Ipv4Mut::add(self, layer)
    }

    fn switch_src_dst(&mut self) {
        Ipv4Mut::switch_src_dst(self)
    }

    fn build(self) -> Option<Vec<u8>> {
        Ipv4Mut::build(self)
    }
}

impl<'a> LayerImmutable<'a> for Ipv4<'a> {
    type LayerMutType = Ipv4Mut;

    fn new(buf: &'a [u8]) -> Self {
        Ipv4::new(buf)
    }

    fn as_mut(&self) -> Option<Ipv4Mut> {
        Ipv4::as_mut(self)
    }

    fn get_buf(&self) -> &[u8] {
        Ipv4::get_buf(self)
    }

    fn get_layer(&self, layer: Layers) -> Option<Layer<'a>> {
        Ipv4::get_layer(self, layer)
    }

    fn get_layer_from_buf(buf: &[u8], layer: Layers) -> Option<Layer<'_>> {
        Ipv4::get_layer_from_buf(buf, layer)
    }
}

impl LayerMutable for Ipv6Mut {
    fn new() -> Self {
        Ipv6Mut::new()
    }

    fn from_buf(buf: Vec<u8>) -> Option<Self> {
        Ipv6Mut::from_buf(buf)
    }

    fn get_layer(&mut self, layer: &Layers) -> Option<&mut LayerMut> {
        Ipv6Mut::get_layer(self, layer)
    }

    fn set_payload(&mut self, payload: &[u8]) {
        Ipv6Mut::set_payload(self, payload)
    }

    fn add(&mut self, layer: LayerMut) -> bool {
        Ipv6Mut::add(self, layer)
    }

    fn switch_src_dst(&mut self) {
        Ipv6Mut::switch_src_dst(self)
    }

    fn build(self) -> Option<Vec<u8>> {
        Ipv6Mut::build(self)
    }
}

impl<'a> LayerImmutable<'a> for Ipv6<'a> {
    type LayerMutType = Ipv6Mut;

    fn new(buf: &'a [u8]) -> Self {
        Ipv6::new(buf)
    }

    fn as_mut(&self) -> Option<Ipv6Mut> {
        Ipv6::as_mut(self)
    }

    fn get_buf(&self) -> &[u8] {
        Ipv6::get_buf(self)
    }

    fn get_layer(&self, layer: Layers) -> Option<Layer<'a>> {
        Ipv6::get_layer(self, layer)
    }

    fn get_layer_from_buf(buf: &[u8], layer: Layers) -> Option<Layer<'_>> {
        Ipv6::get_layer_from_buf(buf, layer)
    }
}

impl LayerMutable for IcmpMut {
    fn new() -> Self {
        IcmpMut::new()
    }

    fn from_buf(buf: Vec<u8>) -> Option<Self> {
        IcmpMut::from_buf(buf)
    }

    fn get_layer(&mut self, layer: &Layers) -> Option<&mut LayerMut> {
        IcmpMut::get_layer(self, layer)
    }

    fn set_payload(&mut self, payload: &[u8]) {
        IcmpMut::set_payload(self, payload)
    }

    fn add(&mut self, layer: LayerMut) -> bool {
        IcmpMut::add(self, layer)
    }

    fn switch_src_dst(&mut self) {
        IcmpMut::switch_src_dst(self)
    }

    fn build(self) -> Option<Vec<u8>> {
        IcmpMut::build(self)
    }
}

impl<'a> LayerImmutable<'a> for Icmp<'a> {
    type LayerMutType = IcmpMut;

    fn new(buf: &'a [u8]) -> Self {
        Icmp::new(buf)
    }

    fn as_mut(&self) -> Option<IcmpMut> {
        Icmp::as_mut(self)
    }

    fn get_buf(&self) -> &[u8] {
        Icmp::get_buf(self)
    }

    fn get_layer(&self, layer: Layers) -> Option<Layer<'a>> {
        Icmp::get_layer(self, layer)
    }

    fn get_layer_from_buf(buf: &[u8], layer: Layers) -> Option<Layer<'_>> {
        Icmp::get_layer_from_buf(buf, layer)
    }
}

impl LayerMutable for UdpMut {
    fn new() -> Self {
        UdpMut::new()
    }

    fn from_buf(buf: Vec<u8>) -> Option<Self> {
        UdpMut::from_buf(buf)
    }

    fn get_layer(&mut self, layer: &Layers) -> Option<&mut LayerMut> {
        UdpMut::get_layer(self, layer)
    }

    fn set_payload(&mut self, payload: &[u8]) {
        UdpMut::set_payload(self, payload)
    }

    fn add(&mut self, layer: LayerMut) -> bool {
        UdpMut::add(self, layer)
    }

    fn switch_src_dst(&mut self) {
        UdpMut::switch_src_dst(self)
    }

    fn build(self) -> Option<Vec<u8>> {
        UdpMut::build(self)
    }
}

impl<'a> LayerImmutable<'a> for Udp<'a> {
    type LayerMutType = UdpMut;

    fn new(buf: &'a [u8]) -> Self {
        Udp::new(buf)
    }

    fn as_mut(&self) -> Option<UdpMut> {
        Udp::as_mut(self)
    }

    fn get_buf(&self) -> &[u8] {
        Udp::get_buf(self)
    }

    fn get_layer(&self, layer: Layers) -> Option<Layer<'a>> {
        Udp::get_layer(self, layer)
    }

    fn get_layer_from_buf(buf: &[u8], layer: Layers) -> Option<Layer<'_>> {
        Udp::get_layer_from_buf(buf, layer)
    }
}

impl LayerMutable for TcpMut {
    fn new() -> Self {
        TcpMut::new()
    }

    fn from_buf(buf: Vec<u8>) -> Option<Self> {
        TcpMut::from_buf(buf)
    }

    fn get_layer(&mut self, layer: &Layers) -> Option<&mut LayerMut> {
        TcpMut::get_layer(self, layer)
    }

    fn set_payload(&mut self, payload: &[u8]) {
        TcpMut::set_payload(self, payload)
    }

    fn add(&mut self, layer: LayerMut) -> bool {
        TcpMut::add(self, layer)
    }

    fn switch_src_dst(&mut self) {
        TcpMut::switch_src_dst(self)
    }

    fn build(self) -> Option<Vec<u8>> {
        TcpMut::build(self)
    }
}

impl<'a> LayerImmutable<'a> for Tcp<'a> {
    type LayerMutType = TcpMut;

    fn new(buf: &'a [u8]) -> Self {
        Tcp::new(buf)
    }

    fn as_mut(&self) -> Option<TcpMut> {
        Tcp::as_mut(self)
    }

    fn get_buf(&self) -> &[u8] {
        Tcp::get_buf(self)
    }

    fn get_layer(&self, layer: Layers) -> Option<Layer<'a>> {
        Tcp::get_layer(self, layer)
    }

    fn get_layer_from_buf(buf: &[u8], layer: Layers) -> Option<Layer<'_>> {
        Tcp::get_layer_from_buf(buf, layer)
    }
}

impl LayerMutable for PayloadMut {
    fn new() -> Self {
        PayloadMut::new()
    }

    fn from_buf(buf: Vec<u8>) -> Option<Self> {
        PayloadMut::from_buf(buf)
    }

    fn get_layer(&mut self, layer: &Layers) -> Option<&mut LayerMut> {
        PayloadMut::get_layer(self, layer)
    }

    fn set_payload(&mut self, payload: &[u8]) {
        PayloadMut::set_payload(self, payload)
    }

    fn add(&mut self, layer: LayerMut) -> bool {
        PayloadMut::add(self, layer)
    }

    fn switch_src_dst(&mut self) {
        PayloadMut::switch_src_dst(self)
    }

    fn build(self) -> Option<Vec<u8>> {
        PayloadMut::build(self)
    }
}

impl<'a> LayerImmutable<'a> for Payload<'a> {
    type LayerMutType = PayloadMut;

    fn new(buf: &'a [u8]) -> Self {
        Payload::new(buf)
    }

    fn as_mut(&self) -> Option<PayloadMut> {
        Payload::as_mut(self)
    }

    fn get_buf(&self) -> &[u8] {
        Payload::get_buf(self)
    }

    fn get_layer(&self, layer: Layers) -> Option<Layer<'a>> {
        Payload::get_layer(self, layer)
    }

    fn get_layer_from_buf(buf: &[u8], layer: Layers) -> Option<Layer<'_>> {
        Payload::get_layer_from_buf(buf, layer)
    }
}

} // verus!
