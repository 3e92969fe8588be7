//! Reading and writing the header fields of each layer, at their on-wire offsets.
use vstd::prelude::*;

use crate::bytes::{
    be16, be32, put16, put32, put_bytes, read16, read32, read_array, write16, write32, write8,
    write_bytes,
};
use crate::kinds::{min_size, Layers};
use crate::layers::{
    ArpMut, EtherMut, IcmpMut, Ipv4Mut, Ipv6Mut, TcpMut, UdpMut, VlanMut,
};

verus! {

impl EtherMut {
    /// Destination MAC address.
    pub fn get_destination(&self) -> (r: [u8; 6])
        requires
            self.stack()[0].1.len() >= min_size(Layers::Ether),
        ensures
            r@ == self.stack()[0].1.subrange(0, 6),
    {
        read_array::<6>(self.buf.as_slice(), 0)
    }

    /// Sets the destination MAC address.
    pub fn set_destination(&mut self, v: [u8; 6])
        requires
            old(self).stack()[0].1.len() >= min_size(Layers::Ether),
        ensures
            final(self).stack() == old(self).stack().update(
                0,
                (Layers::Ether, { let b = old(self).stack()[0].1; put_bytes(b, 0, v@) }),
            ),
    {
        let ghost s = self.stack();
        write_bytes(&mut self.buf, 0, v.as_slice());
        assert(self.stack() =~= s.update(0, (Layers::Ether, { let b = s[0].1; put_bytes(b, 0, v@) })));
    }

    /// Source MAC address.
    pub fn get_source(&self) -> (r: [u8; 6])
        requires
            self.stack()[0].1.len() >= min_size(Layers::Ether),
        ensures
            r@ == self.stack()[0].1.subrange(6, 12),
    {
        read_array::<6>(self.buf.as_slice(), 6)
    }

    /// Sets the source MAC address.
    pub fn set_source(&mut self, v: [u8; 6])
        requires
            old(self).stack()[0].1.len() >= min_size(Layers::Ether),
        ensures
            final(self).stack() == old(self).stack().update(
                0,
                (Layers::Ether, { let b = old(self).stack()[0].1; put_bytes(b, 6, v@) }),
            ),
    {
        let ghost s = self.stack();
        write_bytes(&mut self.buf, 6, v.as_slice());
        assert(self.stack() =~= s.update(0, (Layers::Ether, { let b = s[0].1; put_bytes(b, 6, v@) })));
    }

    /// EtherType.
    pub fn get_ethertype(&self) -> (r: u16)
        requires
            self.stack()[0].1.len() >= min_size(Layers::Ether),
        ensures
            r == ({ let b = self.stack()[0].1; be16(b, 12) }),
    {
        read16(self.buf.as_slice(), 12)
    }

    /// Sets the etherType.
    pub fn set_ethertype(&mut self, v: u16)
        requires
            old(self).stack()[0].1.len() >= min_size(Layers::Ether),
        ensures
            final(self).stack() == old(self).stack().update(
                0,
                (Layers::Ether, { let b = old(self).stack()[0].1; put16(b, 12, v) }),
            ),
    {
        let ghost s = self.stack();
        write16(&mut self.buf, 12, v);
        assert(self.stack() =~= s.update(0, (Layers::Ether, { let b = s[0].1; put16(b, 12, v) })));
    }

}

impl VlanMut {
    /// Priority code point (3 bits).
    pub fn get_priority_code_point(&self) -> (r: u8)
        requires
            self.stack()[0].1.len() >= min_size(Layers::Vlan),
        ensures
            r == ({ let b = self.stack()[0].1; (b[0] / 32) as u8 }),
    {
        self.buf[0] / 32
    }

    /// Sets the priority code point (3 bits).
    pub fn set_priority_code_point(&mut self, v: u8)
        requires
            old(self).stack()[0].1.len() >= min_size(Layers::Vlan),
        ensures
            final(self).stack() == old(self).stack().update(
                0,
                (Layers::Vlan, { let b = old(self).stack()[0].1; b.update(0, ((v % 8) as int * 32 + b[0] as int % 32) as u8) }),
            ),
    {
        let ghost s = self.stack();
        let b0 = self.buf[0];
        write8(&mut self.buf, 0, (v % 8) * 32 + b0 % 32);
        assert(self.stack() =~= s.update(0, (Layers::Vlan, { let b = s[0].1; b.update(0, ((v % 8) as int * 32 + b[0] as int % 32) as u8) })));
    }

    /// VLAN identifier (12 bits).
    pub fn get_vlan_identifier(&self) -> (r: u16)
        requires
            self.stack()[0].1.len() >= min_size(Layers::Vlan),
        ensures
            r == ({ let b = self.stack()[0].1; ((b[0] % 16) as int * 256 + b[1] as int) as u16 }),
    {
        (self.buf[0] % 16) as u16 * 256 + self.buf[1] as u16
    }

    /// Sets the vLAN identifier (12 bits).
    pub fn set_vlan_identifier(&mut self, v: u16)
        requires
            old(self).stack()[0].1.len() >= min_size(Layers::Vlan),
        ensures
            final(self).stack() == old(self).stack().update(
                0,
                (Layers::Vlan, { let b = old(self).stack()[0].1; b.update(0, ((b[0] as int / 16) * 16 + (v as int / 256) % 16) as u8).update(1, (v as int % 256) as u8) }),
            ),
    {
        let ghost s = self.stack();
        let b0 = self.buf[0];
        write8(&mut self.buf, 0, (b0 / 16) * 16 + ((v / 256) % 16) as u8);
        write8(&mut self.buf, 1, (v % 256) as u8);
        assert(self.stack() =~= s.update(0, (Layers::Vlan, { let b = s[0].1; b.update(0, ((b[0] as int / 16) * 16 + (v as int / 256) % 16) as u8).update(1, (v as int % 256) as u8) })));
    }

    /// EtherType of the tagged frame.
    pub fn get_ethertype(&self) -> (r: u16)
        requires
            self.stack()[0].1.len() >= min_size(Layers::Vlan),
        ensures
            r == ({ let b = self.stack()[0].1; be16(b, 2) }),
    {
        read16(self.buf.as_slice(), 2)
    }

    /// Sets the etherType of the tagged frame.
    pub fn set_ethertype(&mut self, v: u16)
        requires
            old(self).stack()[0].1.len() >= min_size(Layers::Vlan),
        ensures
            final(self).stack() == old(self).stack().update(
                0,
                (Layers::Vlan, { let b = old(self).stack()[0].1; put16(b, 2, v) }),
            ),
    {
        let ghost s = self.stack();
        write16(&mut self.buf, 2, v);
        assert(self.stack() =~= s.update(0, (Layers::Vlan, { let b = s[0].1; put16(b, 2, v) })));
    }

}

impl ArpMut {
    /// Hardware type.
    pub fn get_hardware_type(&self) -> (r: u16)
        requires
            self.stack()[0].1.len() >= min_size(Layers::Arp),
        ensures
            r == ({ let b = self.stack()[0].1; be16(b, 0) }),
    {
        read16(self.buf.as_slice(), 0)
    }

    /// Sets the hardware type.
    pub fn set_hardware_type(&mut self, v: u16)
        requires
            old(self).stack()[0].1.len() >= min_size(Layers::Arp),
        ensures
            final(self).stack() == old(self).stack().update(
                0,
                (Layers::Arp, { let b = old(self).stack()[0].1; put16(b, 0, v) }),
            ),
    {
        let ghost s = self.stack();
        write16(&mut self.buf, 0, v);
        assert(self.stack() =~= s.update(0, (Layers::Arp, { let b = s[0].1; put16(b, 0, v) })));
    }

    /// Protocol type.
    pub fn get_protocol_type(&self) -> (r: u16)
        requires
            self.stack()[0].1.len() >= min_size(Layers::Arp),
        ensures
            r == ({ let b = self.stack()[0].1; be16(b, 2) }),
    {
        read16(self.buf.as_slice(), 2)
    }

    /// Sets the protocol type.
    pub fn set_protocol_type(&mut self, v: u16)
        requires
            old(self).stack()[0].1.len() >= min_size(Layers::Arp),
        ensures
            final(self).stack() == old(self).stack().update(
                0,
                (Layers::Arp, { let b = old(self).stack()[0].1; put16(b, 2, v) }),
            ),
    {
        let ghost s = self.stack();
        write16(&mut self.buf, 2, v);
        assert(self.stack() =~= s.update(0, (Layers::Arp, { let b = s[0].1; put16(b, 2, v) })));
    }

    /// Hardware address length.
    pub fn get_hw_addr_len(&self) -> (r: u8)
        requires
            self.stack()[0].1.len() >= min_size(Layers::Arp),
        ensures
            r == ({ let b = self.stack()[0].1; b[4] }),
    {
        self.buf[4]
    }

    /// Sets the hardware address length.
    pub fn set_hw_addr_len(&mut self, v: u8)
        requires
            old(self).stack()[0].1.len() >= min_size(Layers::Arp),
        ensures
            final(self).stack() == old(self).stack().update(
                0,
                (Layers::Arp, { let b = old(self).stack()[0].1; b.update(4, v) }),
            ),
    {
        let ghost s = self.stack();
        write8(&mut self.buf, 4, v);
        assert(self.stack() =~= s.update(0, (Layers::Arp, { let b = s[0].1; b.update(4, v) })));
    }

    /// Protocol address length.
    pub fn get_proto_addr_len(&self) -> (r: u8)
        requires
            self.stack()[0].1.len() >= min_size(Layers::Arp),
        ensures
            r == ({ let b = self.stack()[0].1; b[5] }),
    {
        self.buf[5]
    }

    /// Sets the protocol address length.
    pub fn set_proto_addr_len(&mut self, v: u8)
        requires
            old(self).stack()[0].1.len() >= min_size(Layers::Arp),
        ensures
            final(self).stack() == old(self).stack().update(
                0,
                (Layers::Arp, { let b = old(self).stack()[0].1; b.update(5, v) }),
            ),
    {
        let ghost s = self.stack();
        write8(&mut self.buf, 5, v);
        assert(self.stack() =~= s.update(0, (Layers::Arp, { let b = s[0].1; b.update(5, v) })));
    }

    /// Operation.
    pub fn get_operation(&self) -> (r: u16)
        requires
            self.stack()[0].1.len() >= min_size(Layers::Arp),
        ensures
            r == ({ let b = self.stack()[0].1; be16(b, 6) }),
    {
        read16(self.buf.as_slice(), 6)
    }

    /// Sets the operation.
    pub fn set_operation(&mut self, v: u16)
        requires
            old(self).stack()[0].1.len() >= min_size(Layers::Arp),
        ensures
            final(self).stack() == old(self).stack().update(
                0,
                (Layers::Arp, { let b = old(self).stack()[0].1; put16(b, 6, v) }),
            ),
    {
        let ghost s = self.stack();
        write16(&mut self.buf, 6, v);
        assert(self.stack() =~= s.update(0, (Layers::Arp, { let b = s[0].1; put16(b, 6, v) })));
    }

    /// Sender hardware address.
    pub fn get_sender_hw_addr(&self) -> (r: [u8; 6])
        requires
            self.stack()[0].1.len() >= min_size(Layers::Arp),
        ensures
            r@ == self.stack()[0].1.subrange(8, 14),
    {
        read_array::<6>(self.buf.as_slice(), 8)
    }

    /// Sets the sender hardware address.
    pub fn set_sender_hw_addr(&mut self, v: [u8; 6])
        requires
            old(self).stack()[0].1.len() >= min_size(Layers::Arp),
        ensures
            final(self).stack() == old(self).stack().update(
                0,
                (Layers::Arp, { let b = old(self).stack()[0].1; put_bytes(b, 8, v@) }),
            ),
    {
        let ghost s = self.stack();
        write_bytes(&mut self.buf, 8, v.as_slice());
        assert(self.stack() =~= s.update(0, (Layers::Arp, { let b = s[0].1; put_bytes(b, 8, v@) })));
    }

    /// Sender protocol address.
    pub fn get_sender_proto_addr(&self) -> (r: [u8; 4])
        requires
            self.stack()[0].1.len() >= min_size(Layers::Arp),
        ensures
            r@ == self.stack()[0].1.subrange(14, 18),
    {
        read_array::<4>(self.buf.as_slice(), 14)
    }

    /// Sets the sender protocol address.
    pub fn set_sender_proto_addr(&mut self, v: [u8; 4])
        requires
            old(self).stack()[0].1.len() >= min_size(Layers::Arp),
        ensures
            final(self).stack() == old(self).stack().update(
                0,
                (Layers::Arp, { let b = old(self).stack()[0].1; put_bytes(b, 14, v@) }),
            ),
    {
        let ghost s = self.stack();
        write_bytes(&mut self.buf, 14, v.as_slice());
        assert(self.stack() =~= s.update(0, (Layers::Arp, { let b = s[0].1; put_bytes(b, 14, v@) })));
    }

    /// Target hardware address.
    pub fn get_target_hw_addr(&self) -> (r: [u8; 6])
        requires
            self.stack()[0].1.len() >= min_size(Layers::Arp),
        ensures
            r@ == self.stack()[0].1.subrange(18, 24),
    {
        read_array::<6>(self.buf.as_slice(), 18)
    }

    /// Sets the target hardware address.
    pub fn set_target_hw_addr(&mut self, v: [u8; 6])
        requires
            old(self).stack()[0].1.len() >= min_size(Layers::Arp),
        ensures
            final(self).stack() == old(self).stack().update(
                0,
                (Layers::Arp, { let b = old(self).stack()[0].1; put_bytes(b, 18, v@) }),
            ),
    {
        let ghost s = self.stack();
        write_bytes(&mut self.buf, 18, v.as_slice());
        assert(self.stack() =~= s.update(0, (Layers::Arp, { let b = s[0].1; put_bytes(b, 18, v@) })));
    }

    /// Target protocol address.
    pub fn get_target_proto_addr(&self) -> (r: [u8; 4])
        requires
            self.stack()[0].1.len() >= min_size(Layers::Arp),
        ensures
            r@ == self.stack()[0].1.subrange(24, 28),
    {
        read_array::<4>(self.buf.as_slice(), 24)
    }

    /// Sets the target protocol address.
    pub fn set_target_proto_addr(&mut self, v: [u8; 4])
        requires
            old(self).stack()[0].1.len() >= min_size(Layers::Arp),
        ensures
            final(self).stack() == old(self).stack().update(
                0,
                (Layers::Arp, { let b = old(self).stack()[0].1; put_bytes(b, 24, v@) }),
            ),
    {
        let ghost s = self.stack();
        write_bytes(&mut self.buf, 24, v.as_slice());
        assert(self.stack() =~= s.update(0, (Layers::Arp, { let b = s[0].1; put_bytes(b, 24, v@) })));
    }

}

impl Ipv4Mut {
    /// Total length.
    pub fn get_total_length(&self) -> (r: u16)
        requires
            self.stack()[0].1.len() >= min_size(Layers::Ipv4),
        ensures
            r == ({ let b = self.stack()[0].1; be16(b, 2) }),
    {
        read16(self.buf.as_slice(), 2)
    }

    /// Sets the total length.
    pub fn set_total_length(&mut self, v: u16)
        requires
            old(self).stack()[0].1.len() >= min_size(Layers::Ipv4),
        ensures
            final(self).stack() == old(self).stack().update(
                0,
                (Layers::Ipv4, { let b = old(self).stack()[0].1; put16(b, 2, v) }),
            ),
    {
        let ghost s = self.stack();
        write16(&mut self.buf, 2, v);
        assert(self.stack() =~= s.update(0, (Layers::Ipv4, { let b = s[0].1; put16(b, 2, v) })));
    }

    /// Identification.
    pub fn get_identification(&self) -> (r: u16)
        requires
            self.stack()[0].1.len() >= min_size(Layers::Ipv4),
        ensures
            r == ({ let b = self.stack()[0].1; be16(b, 4) }),
    {
        read16(self.buf.as_slice(), 4)
    }

    /// Sets the identification.
    pub fn set_identification(&mut self, v: u16)
        requires
            old(self).stack()[0].1.len() >= min_size(Layers::Ipv4),
        ensures
            final(self).stack() == old(self).stack().update(
                0,
                (Layers::Ipv4, { let b = old(self).stack()[0].1; put16(b, 4, v) }),
            ),
    {
        let ghost s = self.stack();
        write16(&mut self.buf, 4, v);
        assert(self.stack() =~= s.update(0, (Layers::Ipv4, { let b = s[0].1; put16(b, 4, v) })));
    }

    /// Time to live.
    pub fn get_ttl(&self) -> (r: u8)
        requires
            self.stack()[0].1.len() >= min_size(Layers::Ipv4),
        ensures
            r == ({ let b = self.stack()[0].1; b[8] }),
    {
        self.buf[8]
    }

    /// Sets the time to live.
    pub fn set_ttl(&mut self, v: u8)
        requires
            old(self).stack()[0].1.len() >= min_size(Layers::Ipv4),
        ensures
            final(self).stack() == old(self).stack().update(
                0,
                (Layers::Ipv4, { let b = old(self).stack()[0].1; b.update(8, v) }),
            ),
    {
        let ghost s = self.stack();
        write8(&mut self.buf, 8, v);
        assert(self.stack() =~= s.update(0, (Layers::Ipv4, { let b = s[0].1; b.update(8, v) })));
    }

    /// Protocol number of the payload.
    pub fn get_next_level_protocol(&self) -> (r: u8)
        requires
            self.stack()[0].1.len() >= min_size(Layers::Ipv4),
        ensures
            r == ({ let b = self.stack()[0].1; b[9] }),
    {
        self.buf[9]
    }

    /// Sets the protocol number of the payload.
    pub fn set_next_level_protocol(&mut self, v: u8)
        requires
            old(self).stack()[0].1.len() >= min_size(Layers::Ipv4),
        ensures
            final(self).stack() == old(self).stack().update(
                0,
                (Layers::Ipv4, { let b = old(self).stack()[0].1; b.update(9, v) }),
            ),
    {
        let ghost s = self.stack();
        write8(&mut self.buf, 9, v);
        assert(self.stack() =~= s.update(0, (Layers::Ipv4, { let b = s[0].1; b.update(9, v) })));
    }

    /// Header checksum.
    pub fn get_checksum(&self) -> (r: u16)
        requires
            self.stack()[0].1.len() >= min_size(Layers::Ipv4),
        ensures
            r == ({ let b = self.stack()[0].1; be16(b, 10) }),
    {
        read16(self.buf.as_slice(), 10)
    }

    /// Sets the header checksum.
    pub fn set_checksum(&mut self, v: u16)
        requires
            old(self).stack()[0].1.len() >= min_size(Layers::Ipv4),
        ensures
            final(self).stack() == old(self).stack().update(
                0,
                (Layers::Ipv4, { let b = old(self).stack()[0].1; put16(b, 10, v) }),
            ),
    {
        let ghost s = self.stack();
        write16(&mut self.buf, 10, v);
        assert(self.stack() =~= s.update(0, (Layers::Ipv4, { let b = s[0].1; put16(b, 10, v) })));
    }

    /// Source address.
    pub fn get_source(&self) -> (r: [u8; 4])
        requires
            self.stack()[0].1.len() >= min_size(Layers::Ipv4),
        ensures
            r@ == self.stack()[0].1.subrange(12, 16),
    {
        read_array::<4>(self.buf.as_slice(), 12)
    }

    /// Sets the source address.
    pub fn set_source(&mut self, v: [u8; 4])
        requires
            old(self).stack()[0].1.len() >= min_size(Layers::Ipv4),
        ensures
            final(self).stack() == old(self).stack().update(
                0,
                (Layers::Ipv4, { let b = old(self).stack()[0].1; put_bytes(b, 12, v@) }),
            ),
    {
        let ghost s = self.stack();
        write_bytes(&mut self.buf, 12, v.as_slice());
        assert(self.stack() =~= s.update(0, (Layers::Ipv4, { let b = s[0].1; put_bytes(b, 12, v@) })));
    }

    /// Destination address.
    pub fn get_destination(&self) -> (r: [u8; 4])
        requires
            self.stack()[0].1.len() >= min_size(Layers::Ipv4),
        ensures
            r@ == self.stack()[0].1.subrange(16, 20),
    {
        read_array::<4>(self.buf.as_slice(), 16)
    }

    /// Sets the destination address.
    pub fn set_destination(&mut self, v: [u8; 4])
        requires
            old(self).stack()[0].1.len() >= min_size(Layers::Ipv4),
        ensures
            final(self).stack() == old(self).stack().update(
                0,
                (Layers::Ipv4, { let b = old(self).stack()[0].1; put_bytes(b, 16, v@) }),
            ),
    {
        let ghost s = self.stack();
        write_bytes(&mut self.buf, 16, v.as_slice());
        assert(self.stack() =~= s.update(0, (Layers::Ipv4, { let b = s[0].1; put_bytes(b, 16, v@) })));
    }

}

impl Ipv6Mut {
    /// Payload length.
    pub fn get_payload_length(&self) -> (r: u16)
        requires
            self.stack()[0].1.len() >= min_size(Layers::Ipv6),
        ensures
            r == ({ let b = self.stack()[0].1; be16(b, 4) }),
    {
        read16(self.buf.as_slice(), 4)
    }

    /// Sets the payload length.
    pub fn set_payload_length(&mut self, v: u16)
        requires
            old(self).stack()[0].1.len() >= min_size(Layers::Ipv6),
        ensures
            final(self).stack() == old(self).stack().update(
                0,
                (Layers::Ipv6, { let b = old(self).stack()[0].1; put16(b, 4, v) }),
            ),
    {
        let ghost s = self.stack();
        write16(&mut self.buf, 4, v);
        assert(self.stack() =~= s.update(0, (Layers::Ipv6, { let b = s[0].1; put16(b, 4, v) })));
    }

    /// Next header.
    pub fn get_next_header(&self) -> (r: u8)
        requires
            self.stack()[0].1.len() >= min_size(Layers::Ipv6),
        ensures
            r == ({ let b = self.stack()[0].1; b[6] }),
    {
        self.buf[6]
    }

    /// Sets the next header.
    pub fn set_next_header(&mut self, v: u8)
        requires
            old(self).stack()[0].1.len() >= min_size(Layers::Ipv6),
        ensures
            final(self).stack() == old(self).stack().update(
                0,
                (Layers::Ipv6, { let b = old(self).stack()[0].1; b.update(6, v) }),
            ),
    {
        let ghost s = self.stack();
        write8(&mut self.buf, 6, v);
        assert(self.stack() =~= s.update(0, (Layers::Ipv6, { let b = s[0].1; b.update(6, v) })));
    }

    /// Hop limit.
    pub fn get_hop_limit(&self) -> (r: u8)
        requires
            self.stack()[0].1.len() >= min_size(Layers::Ipv6),
        ensures
            r == ({ let b = self.stack()[0].1; b[7] }),
    {
        self.buf[7]
    }

    /// Sets the hop limit.
    pub fn set_hop_limit(&mut self, v: u8)
        requires
            old(self).stack()[0].1.len() >= min_size(Layers::Ipv6),
        ensures
            final(self).stack() == old(self).stack().update(
                0,
                (Layers::Ipv6, { let b = old(self).stack()[0].1; b.update(7, v) }),
            ),
    {
        let ghost s = self.stack();
        write8(&mut self.buf, 7, v);
        assert(self.stack() =~= s.update(0, (Layers::Ipv6, { let b = s[0].1; b.update(7, v) })));
    }

    /// Source address.
    pub fn get_source(&self) -> (r: [u8; 16])
        requires
            self.stack()[0].1.len() >= min_size(Layers::Ipv6),
        ensures
            r@ == self.stack()[0].1.subrange(8, 24),
    {
        read_array::<16>(self.buf.as_slice(), 8)
    }

    /// Sets the source address.
    pub fn set_source(&mut self, v: [u8; 16])
        requires
            old(self).stack()[0].1.len() >= min_size(Layers::Ipv6),
        ensures
            final(self).stack() == old(self).stack().update(
                0,
                (Layers::Ipv6, { let b = old(self).stack()[0].1; put_bytes(b, 8, v@) }),
            ),
    {
        let ghost s = self.stack();
        write_bytes(&mut self.buf, 8, v.as_slice());
        assert(self.stack() =~= s.update(0, (Layers::Ipv6, { let b = s[0].1; put_bytes(b, 8, v@) })));
    }

    /// Destination address.
    pub fn get_destination(&self) -> (r: [u8; 16])
        requires
            self.stack()[0].1.len() >= min_size(Layers::Ipv6),
        ensures
            r@ == self.stack()[0].1.subrange(24, 40),
    {
        read_array::<16>(self.buf.as_slice(), 24)
    }

    /// Sets the destination address.
    pub fn set_destination(&mut self, v: [u8; 16])
        requires
            old(self).stack()[0].1.len() >= min_size(Layers::Ipv6),
        ensures
            final(self).stack() == old(self).stack().update(
                0,
                (Layers::Ipv6, { let b = old(self).stack()[0].1; put_bytes(b, 24, v@) }),
            ),
    {
        let ghost s = self.stack();
        write_bytes(&mut self.buf, 24, v.as_slice());
        assert(self.stack() =~= s.update(0, (Layers::Ipv6, { let b = s[0].1; put_bytes(b, 24, v@) })));
    }

}

impl IcmpMut {
    /// Message type.
    pub fn get_icmp_type(&self) -> (r: u8)
        requires
            self.stack()[0].1.len() >= min_size(Layers::Icmp),
        ensures
            r == ({ let b = self.stack()[0].1; b[0] }),
    {
        self.buf[0]
    }

    /// Sets the message type.
    pub fn set_icmp_type(&mut self, v: u8)
        requires
            old(self).stack()[0].1.len() >= min_size(Layers::Icmp),
        ensures
            final(self).stack() == old(self).stack().update(
                0,
                (Layers::Icmp, { let b = old(self).stack()[0].1; b.update(0, v) }),
            ),
    {
        let ghost s = self.stack();
        write8(&mut self.buf, 0, v);
        assert(self.stack() =~= s.update(0, (Layers::Icmp, { let b = s[0].1; b.update(0, v) })));
    }

    /// Message code.
    pub fn get_icmp_code(&self) -> (r: u8)
        requires
            self.stack()[0].1.len() >= min_size(Layers::Icmp),
        ensures
            r == ({ let b = self.stack()[0].1; b[1] }),
    {
        self.buf[1]
    }

    /// Sets the message code.
    pub fn set_icmp_code(&mut self, v: u8)
        requires
            old(self).stack()[0].1.len() >= min_size(Layers::Icmp),
        ensures
            final(self).stack() == old(self).stack().update(
                0,
                (Layers::Icmp, { let b = old(self).stack()[0].1; b.update(1, v) }),
            ),
    {
        let ghost s = self.stack();
        write8(&mut self.buf, 1, v);
        assert(self.stack() =~= s.update(0, (Layers::Icmp, { let b = s[0].1; b.update(1, v) })));
    }

    /// Checksum.
    pub fn get_checksum(&self) -> (r: u16)
        requires
            self.stack()[0].1.len() >= min_size(Layers::Icmp),
        ensures
            r == ({ let b = self.stack()[0].1; be16(b, 2) }),
    {
        read16(self.buf.as_slice(), 2)
    }

    /// Sets the checksum.
    pub fn set_checksum(&mut self, v: u16)
        requires
            old(self).stack()[0].1.len() >= min_size(Layers::Icmp),
        ensures
            final(self).stack() == old(self).stack().update(
                0,
                (Layers::Icmp, { let b = old(self).stack()[0].1; put16(b, 2, v) }),
            ),
    {
        let ghost s = self.stack();
        write16(&mut self.buf, 2, v);
        assert(self.stack() =~= s.update(0, (Layers::Icmp, { let b = s[0].1; put16(b, 2, v) })));
    }

}

impl UdpMut {
    /// Source port.
    pub fn get_source(&self) -> (r: u16)
        requires
            self.stack()[0].1.len() >= min_size(Layers::Udp),
        ensures
            r == ({ let b = self.stack()[0].1; be16(b, 0) }),
    {
        read16(self.buf.as_slice(), 0)
    }

    /// Sets the source port.
    pub fn set_source(&mut self, v: u16)
        requires
            old(self).stack()[0].1.len() >= min_size(Layers::Udp),
        ensures
            final(self).stack() == old(self).stack().update(
                0,
                (Layers::Udp, { let b = old(self).stack()[0].1; put16(b, 0, v) }),
            ),
    {
        let ghost s = self.stack();
        write16(&mut self.buf, 0, v);
        assert(self.stack() =~= s.update(0, (Layers::Udp, { let b = s[0].1; put16(b, 0, v) })));
    }

    /// Destination port.
    pub fn get_destination(&self) -> (r: u16)
        requires
            self.stack()[0].1.len() >= min_size(Layers::Udp),
        ensures
            r == ({ let b = self.stack()[0].1; be16(b, 2) }),
    {
        read16(self.buf.as_slice(), 2)
    }

    /// Sets the destination port.
    pub fn set_destination(&mut self, v: u16)
        requires
            old(self).stack()[0].1.len() >= min_size(Layers::Udp),
        ensures
            final(self).stack() == old(self).stack().update(
                0,
                (Layers::Udp, { let b = old(self).stack()[0].1; put16(b, 2, v) }),
            ),
    {
        let ghost s = self.stack();
        write16(&mut self.buf, 2, v);
        assert(self.stack() =~= s.update(0, (Layers::Udp, { let b = s[0].1; put16(b, 2, v) })));
    }

    /// Length.
    pub fn get_length(&self) -> (r: u16)
        requires
            self.stack()[0].1.len() >= min_size(Layers::Udp),
        ensures
            r == ({ let b = self.stack()[0].1; be16(b, 4) }),
    {
        read16(self.buf.as_slice(), 4)
    }

    /// Sets the length.
    pub fn set_length(&mut self, v: u16)
        requires
            old(self).stack()[0].1.len() >= min_size(Layers::Udp),
        ensures
            final(self).stack() == old(self).stack().update(
                0,
                (Layers::Udp, { let b = old(self).stack()[0].1; put16(b, 4, v) }),
            ),
    {
        let ghost s = self.stack();
        write16(&mut self.buf, 4, v);
        assert(self.stack() =~= s.update(0, (Layers::Udp, { let b = s[0].1; put16(b, 4, v) })));
    }

    /// Checksum.
    pub fn get_checksum(&self) -> (r: u16)
        requires
            self.stack()[0].1.len() >= min_size(Layers::Udp),
        ensures
            r == ({ let b = self.stack()[0].1; be16(b, 6) }),
    {
        read16(self.buf.as_slice(), 6)
    }

    /// Sets the checksum.
    pub fn set_checksum(&mut self, v: u16)
        requires
            old(self).stack()[0].1.len() >= min_size(Layers::Udp),
        ensures
            final(self).stack() == old(self).stack().update(
                0,
                (Layers::Udp, { let b = old(self).stack()[0].1; put16(b, 6, v) }),
            ),
    {
        let ghost s = self.stack();
        write16(&mut self.buf, 6, v);
        assert(self.stack() =~= s.update(0, (Layers::Udp, { let b = s[0].1; put16(b, 6, v) })));
    }

}

impl TcpMut {
    /// Source port.
    pub fn get_source(&self) -> (r: u16)
        requires
            self.stack()[0].1.len() >= min_size(Layers::Tcp),
        ensures
            r == ({ let b = self.stack()[0].1; be16(b, 0) }),
    {
        read16(self.buf.as_slice(), 0)
    }

    /// Sets the source port.
    pub fn set_source(&mut self, v: u16)
        requires
            old(self).stack()[0].1.len() >= min_size(Layers::Tcp),
        ensures
            final(self).stack() == old(self).stack().update(
                0,
                (Layers::Tcp, { let b = old(self).stack()[0].1; put16(b, 0, v) }),
            ),
    {
        let ghost s = self.stack();
        write16(&mut self.buf, 0, v);
        assert(self.stack() =~= s.update(0, (Layers::Tcp, { let b = s[0].1; put16(b, 0, v) })));
    }

    /// Destination port.
    pub fn get_destination(&self) -> (r: u16)
        requires
            self.stack()[0].1.len() >= min_size(Layers::Tcp),
        ensures
            r == ({ let b = self.stack()[0].1; be16(b, 2) }),
    {
        read16(self.buf.as_slice(), 2)
    }

    /// Sets the destination port.
    pub fn set_destination(&mut self, v: u16)
        requires
            old(self).stack()[0].1.len() >= min_size(Layers::Tcp),
        ensures
            final(self).stack() == old(self).stack().update(
                0,
                (Layers::Tcp, { let b = old(self).stack()[0].1; put16(b, 2, v) }),
            ),
    {
        let ghost s = self.stack();
        write16(&mut self.buf, 2, v);
        assert(self.stack() =~= s.update(0, (Layers::Tcp, { let b = s[0].1; put16(b, 2, v) })));
    }

    /// Sequence number.
    pub fn get_sequence(&self) -> (r: u32)
        requires
            self.stack()[0].1.len() >= min_size(Layers::Tcp),
        ensures
            r == ({ let b = self.stack()[0].1; be32(b, 4) }),
    {
        read32(self.buf.as_slice(), 4)
    }

    /// Sets the sequence number.
    pub fn set_sequence(&mut self, v: u32)
        requires
            old(self).stack()[0].1.len() >= min_size(Layers::Tcp),
        ensures
            final(self).stack() == old(self).stack().update(
                0,
                (Layers::Tcp, { let b = old(self).stack()[0].1; put32(b, 4, v) }),
            ),
    {
        let ghost s = self.stack();
        write32(&mut self.buf, 4, v);
        assert(self.stack() =~= s.update(0, (Layers::Tcp, { let b = s[0].1; put32(b, 4, v) })));
    }

    /// Acknowledgement number.
    pub fn get_acknowledgement(&self) -> (r: u32)
        requires
            self.stack()[0].1.len() >= min_size(Layers::Tcp),
        ensures
            r == ({ let b = self.stack()[0].1; be32(b, 8) }),
    {
        read32(self.buf.as_slice(), 8)
    }

    /// Sets the acknowledgement number.
    pub fn set_acknowledgement(&mut self, v: u32)
        requires
            old(self).stack()[0].1.len() >= min_size(Layers::Tcp),
        ensures
            final(self).stack() == old(self).stack().update(
                0,
                (Layers::Tcp, { let b = old(self).stack()[0].1; put32(b, 8, v) }),
            ),
    {
        let ghost s = self.stack();
        write32(&mut self.buf, 8, v);
        assert(self.stack() =~= s.update(0, (Layers::Tcp, { let b = s[0].1; put32(b, 8, v) })));
    }

    /// Flags.
    pub fn get_flags(&self) -> (r: u8)
        requires
            self.stack()[0].1.len() >= min_size(Layers::Tcp),
        ensures
            r == ({ let b = self.stack()[0].1; b[13] }),
    {
        self.buf[13]
    }

    /// Sets the flags.
    pub fn set_flags(&mut self, v: u8)
        requires
            old(self).stack()[0].1.len() >= min_size(Layers::Tcp),
        ensures
            final(self).stack() == old(self).stack().update(
                0,
                (Layers::Tcp, { let b = old(self).stack()[0].1; b.update(13, v) }),
            ),
    {
        let ghost s = self.stack();
        write8(&mut self.buf, 13, v);
        assert(self.stack() =~= s.update(0, (Layers::Tcp, { let b = s[0].1; b.update(13, v) })));
    }

    /// Window size.
    pub fn get_window(&self) -> (r: u16)
        requires
            self.stack()[0].1.len() >= min_size(Layers::Tcp),
        ensures
            r == ({ let b = self.stack()[0].1; be16(b, 14) }),
    {
        read16(self.buf.as_slice(), 14)
    }

    /// Sets the window size.
    pub fn set_window(&mut self, v: u16)
        requires
            old(self).stack()[0].1.len() >= min_size(Layers::Tcp),
        ensures
            final(self).stack() == old(self).stack().update(
                0,
                (Layers::Tcp, { let b = old(self).stack()[0].1; put16(b, 14, v) }),
            ),
    {
        let ghost s = self.stack();
        write16(&mut self.buf, 14, v);
        assert(self.stack() =~= s.update(0, (Layers::Tcp, { let b = s[0].1; put16(b, 14, v) })));
    }

    /// Checksum.
    pub fn get_checksum(&self) -> (r: u16)
        requires
            self.stack()[0].1.len() >= min_size(Layers::Tcp),
        ensures
            r == ({ let b = self.stack()[0].1; be16(b, 16) }),
    {
        read16(self.buf.as_slice(), 16)
    }

    /// Sets the checksum.
    pub fn set_checksum(&mut self, v: u16)
        requires
            old(self).stack()[0].1.len() >= min_size(Layers::Tcp),
        ensures
            final(self).stack() == old(self).stack().update(
                0,
                (Layers::Tcp, { let b = old(self).stack()[0].1; put16(b, 16, v) }),
            ),
    {
        let ghost s = self.stack();
        write16(&mut self.buf, 16, v);
        assert(self.stack() =~= s.update(0, (Layers::Tcp, { let b = s[0].1; put16(b, 16, v) })));
    }

    /// Urgent pointer.
    pub fn get_urgent_ptr(&self) -> (r: u16)
        requires
            self.stack()[0].1.len() >= min_size(Layers::Tcp),
        ensures
            r == ({ let b = self.stack()[0].1; be16(b, 18) }),
    {
        read16(self.buf.as_slice(), 18)
    }

    /// Sets the urgent pointer.
    pub fn set_urgent_ptr(&mut self, v: u16)
        requires
            old(self).stack()[0].1.len() >= min_size(Layers::Tcp),
        ensures
            final(self).stack() == old(self).stack().update(
                0,
                (Layers::Tcp, { let b = old(self).stack()[0].1; put16(b, 18, v) }),
            ),
    {
        let ghost s = self.stack();
        write16(&mut self.buf, 18, v);
        assert(self.stack() =~= s.update(0, (Layers::Tcp, { let b = s[0].1; put16(b, 18, v) })));
    }

}

} // verus!
