use pnet_layers::{
    ArpMut, Ether, EtherMut, IcmpMut, Ipv4, Ipv4Mut, Ipv6Mut, Layer, LayerMut, Layers, PayloadMut,
    TcpMut, TcpPacket, UdpMut, VlanMut,
};

fn sample_chain() -> EtherMut {
    let mut ether = EtherMut::new();
    ether.set_source([0x44; 6]);
    ether.set_destination([0x33; 6]);
    let mut vlan = VlanMut::new();
    vlan.set_vlan_identifier(10);
    let mut ip = Ipv4Mut::new();
    ip.set_source([192, 168, 0, 1]);
    ip.set_destination([192, 168, 0, 199]);
    let mut udp = UdpMut::new();
    udp.set_source(1234);
    udp.set_destination(80);
    assert!(ether.add(LayerMut::Vlan(vlan)));
    assert!(ether.add(LayerMut::Ipv4(ip)));
    assert!(ether.add(LayerMut::Udp(udp)));
    assert!(ether.add(LayerMut::Payload(PayloadMut::from_buf(b"hello".to_vec()).unwrap())));
    ether
}

fn ones_complement(data: &[u8]) -> u16 {
    let mut sum: u32 = 0;
    for pair in data.chunks(2) {
        let hi = pair[0] as u32;
        let lo = if pair.len() > 1 { pair[1] as u32 } else { 0 };
        sum += (hi << 8) | lo;
    }
    while sum >> 16 != 0 {
        sum = (sum >> 16) + (sum & 0xffff);
    }
    !(sum as u16)
}

#[test]
fn round_trip_rebuilds_same_bytes() {
    let first = LayerMut::Ether(sample_chain()).build_with_identification(7).unwrap();
    let parsed = EtherMut::from_buf(first.clone()).unwrap();
    let second = LayerMut::Ether(parsed).build_with_identification(99).unwrap();
    assert_eq!(first, second);
}

#[test]
fn round_trip_random_identification() {
    let first = sample_chain().build().unwrap();
    let second = EtherMut::from_buf(first.clone()).unwrap().build().unwrap();
    let ident = u16::from_be_bytes([first[22], first[23]]);
    if ident != 0 {
        assert_eq!(first, second);
    }
}

#[test]
fn vlan_and_ipv4_in_either_order() {
    let mut ip = Ipv4Mut::new();
    ip.set_identification(5);
    let mut vlan = VlanMut::new();
    vlan.set_vlan_identifier(3);
    let mut a = EtherMut::new();
    assert!(a.add(LayerMut::Ipv4(ip.clone())));
    assert!(a.add(LayerMut::Vlan(vlan.clone())));
    let mut b = EtherMut::new();
    assert!(b.add(LayerMut::Vlan(vlan)));
    assert!(b.add(LayerMut::Ipv4(ip)));
    assert_eq!(format!("{a:?}"), format!("{b:?}"));
    assert_eq!(a.build().unwrap(), b.build().unwrap());
}

#[test]
fn tcp_rejected_without_ip_layer() {
    let mut ether = EtherMut::new();
    let mut vlan = VlanMut::new();
    vlan.set_vlan_identifier(9);
    assert!(ether.add(LayerMut::Vlan(vlan)));
    let before = format!("{ether:?}");
    assert!(!ether.add(LayerMut::Tcp(TcpMut::new())));
    assert_eq!(before, format!("{ether:?}"));
    assert!(!ether.add(LayerMut::Payload(PayloadMut::new())));
    assert_eq!(before, format!("{ether:?}"));
}

#[test]
fn udp_checksum_over_ipv4_pseudo_header() {
    let bytes = LayerMut::Ether(sample_chain()).build_with_identification(1).unwrap();
    let udp = &bytes[14 + 4 + 20..];
    assert_eq!(udp.len(), 13);
    assert_eq!(u16::from_be_bytes([udp[6], udp[7]]), 0x34c7);
    let mut check = vec![192u8, 168, 0, 1, 192, 168, 0, 199, 0, 17, 0, 13];
    let mut zeroed = udp.to_vec();
    zeroed[6] = 0;
    zeroed[7] = 0;
    check.extend_from_slice(&zeroed);
    assert_eq!(ones_complement(&check), 0x34c7);
    // the UDP length field holds header plus payload
    assert_eq!(u16::from_be_bytes([udp[4], udp[5]]), 13);
}

#[test]
fn udp_build_from_ipv4_sets_checksum() {
    let mut udp = UdpMut::new();
    udp.set_source(1234);
    udp.set_destination(80);
    assert!(udp.add(LayerMut::Payload(PayloadMut::from_buf(b"hello".to_vec()).unwrap())));
    let bytes = udp.build_from_ipv4([192, 168, 0, 1], [192, 168, 0, 199]).unwrap();
    assert_eq!(u16::from_be_bytes([bytes[6], bytes[7]]), 0x34c7);
}

#[test]
fn ipv4_header_checksum_and_defaults() {
    let mut ip = Ipv4Mut::new();
    ip.set_ttl(64);
    ip.set_next_level_protocol(17);
    ip.set_source([192, 168, 0, 1]);
    ip.set_destination([192, 168, 0, 199]);
    ip.set_payload(&[0u8; 95]);
    let bytes = LayerMut::Ipv4(ip).build_with_identification(0).unwrap();
    assert_eq!(bytes.len(), 115);
    assert_eq!(bytes[0], 0x45);
    assert_eq!(u16::from_be_bytes([bytes[2], bytes[3]]), 115);
    assert_eq!(u16::from_be_bytes([bytes[10], bytes[11]]), 0xf861);
}

#[test]
fn ipv4_magic_ttl_and_random_identification() {
    let mut ether = EtherMut::new();
    assert!(ether.add(LayerMut::Ipv4(Ipv4Mut::new())));
    let bytes = ether.build().unwrap();
    assert_eq!(bytes.len(), 34);
    assert_eq!(u16::from_be_bytes([bytes[12], bytes[13]]), 0x0800);
    assert_eq!(bytes[14], 0x45);
    assert_eq!(bytes[14 + 8], 170);
    assert_ne!(u16::from_be_bytes([bytes[18], bytes[19]]), 0xffff);
}

#[test]
fn icmp_checksum() {
    let mut icmp = IcmpMut::new();
    icmp.set_icmp_type(8);
    icmp.set_payload(&[0, 1, 0, 2]);
    let bytes = icmp.build().unwrap();
    assert_eq!(bytes, vec![8, 0, 0xf7, 0xfc, 0, 1, 0, 2]);
}

#[test]
fn ipv6_payload_length_and_next_header() {
    let mut ip = Ipv6Mut::new();
    ip.set_source([1; 16]);
    ip.set_destination([2; 16]);
    let mut tcp = TcpMut::new();
    tcp.set_source(80);
    assert!(ip.add(LayerMut::Tcp(tcp)));
    let bytes = ip.build().unwrap();
    assert_eq!(bytes.len(), 60);
    assert_eq!(bytes[0] >> 4, 6);
    assert_eq!(u16::from_be_bytes([bytes[4], bytes[5]]), 20);
    assert_eq!(bytes[6], 6);
    assert_eq!(bytes[40 + 12], 0x50);
    let back = Ipv6Mut::from_buf(bytes.clone()).unwrap();
    assert_eq!(back.build().unwrap(), bytes);
}

#[test]
fn switch_addresses_twice_restores() {
    let mut ether = EtherMut::new();
    ether.set_source([1, 1, 1, 1, 1, 1]);
    ether.set_destination([2, 2, 2, 2, 2, 2]);
    let mut ip = Ipv4Mut::new();
    ip.set_source([10, 0, 0, 1]);
    ip.set_destination([10, 0, 0, 2]);
    let mut tcp = TcpMut::new();
    tcp.set_source(1000);
    tcp.set_destination(2000);
    assert!(ether.add(LayerMut::Ipv4(ip)));
    assert!(ether.add(LayerMut::Tcp(tcp)));
    let before_switch = format!("{ether:?}");

    ether.switch_src_dst();
    assert_eq!(ether.get_source(), [2, 2, 2, 2, 2, 2]);
    assert_eq!(ether.get_destination(), [1, 1, 1, 1, 1, 1]);
    if let Some(LayerMut::Ipv4(ip)) = ether.get_layer(&Layers::Ipv4) {
        assert_eq!(ip.get_source(), [10, 0, 0, 2]);
        assert_eq!(ip.get_destination(), [10, 0, 0, 1]);
    } else {
        panic!("no IPv4 layer");
    }
    if let Some(LayerMut::Tcp(tcp)) = ether.get_layer(&Layers::Tcp) {
        assert_eq!(tcp.get_source(), 2000);
        assert_eq!(tcp.get_destination(), 1000);
    } else {
        panic!("no TCP layer");
    }
    ether.switch_src_dst();
    assert_eq!(before_switch, format!("{ether:?}"));
}

#[test]
fn parse_rejects_short_buffers() {
    assert!(EtherMut::from_buf(vec![0; 13]).is_none());
    assert!(Ipv4Mut::from_buf(vec![0x45; 19]).is_none());
    assert!(UdpMut::from_buf(vec![0; 7]).is_none());
    assert!(ArpMut::from_buf(vec![0; 27]).is_none());
    // an IPv4 ethertype over too few bytes fails the whole frame
    let mut frame = vec![0u8; 20];
    frame[12] = 0x08;
    assert!(EtherMut::from_buf(frame).is_none());
}

#[test]
fn parse_unknown_ethertype_ends_chain() {
    let mut frame = vec![0u8; 30];
    frame[12] = 0x88;
    frame[13] = 0xf7;
    let ether = EtherMut::from_buf(frame).unwrap();
    assert!(ether.upper_layer.is_none());
    assert_eq!(ether.header().len(), 14);
    assert_eq!(ether.build().unwrap().len(), 14);
}

#[test]
fn set_payload_replaces_tail() {
    let mut payload = PayloadMut::from_buf(vec![1, 2, 3]).unwrap();
    payload.set_payload(&[9, 9]);
    assert_eq!(payload.build().unwrap(), vec![9, 9]);
    let mut udp = UdpMut::new();
    udp.set_payload(&[7; 4]);
    udp.set_payload(&[5]);
    assert_eq!(udp.header(), &[0, 0, 0, 0, 0, 0, 0, 0, 5]);
}

#[test]
fn build_fails_beyond_ipv4_length() {
    let mut ip = Ipv4Mut::new();
    let mut udp = UdpMut::new();
    udp.set_payload(&vec![0u8; 65530]);
    assert!(ip.add(LayerMut::Udp(udp)));
    assert!(ip.build().is_none());
}

#[test]
fn build_fails_on_unhandled_child() {
    let mut ether = EtherMut::new();
    ether.upper_layer = Some(Box::new(LayerMut::Tcp(TcpMut::new())));
    assert!(ether.build().is_none());
}

#[test]
fn views_find_layers_in_place() {
    let bytes = LayerMut::Ether(sample_chain()).build_with_identification(1).unwrap();
    let ether = Ether::new(&bytes);
    match ether.get_layer(Layers::Udp) {
        Some(Layer::Udp(udp)) => assert_eq!(udp.get_buf().len(), 13),
        _ => panic!("no UDP view"),
    }
    match Ether::get_layer_from_buf(&bytes, Layers::Payload) {
        Some(Layer::Payload(p)) => assert_eq!(p.get_buf(), b"hello"),
        _ => panic!("no payload view"),
    }
    assert!(ether.get_layer(Layers::Tcp).is_none());
    assert!(ether.get_layer(Layers::Ether).is_none());
    match Ipv4::get_layer_from_buf(&bytes[18..], Layers::Udp) {
        Some(Layer::Udp(_)) => {},
        _ => panic!("no UDP view above IPv4"),
    }
    let owned = ether.as_mut().unwrap();
    assert_eq!(LayerMut::Ether(owned).build_with_identification(1).unwrap(), bytes);
}

#[test]
fn helper_syn_and_arp() {
    let p = TcpPacket {
        eth_src: [0x44; 6],
        eth_dst: [0x33; 6],
        vlan_id: Some(5),
        ipv4_src: [11, 11, 11, 11],
        ipv4_dst: [169, 254, 17, 10],
        dport: 13400,
        sport: 1000,
    };
    let mut syn = p.syn(77).unwrap();
    if let Some(LayerMut::Tcp(tcp)) = syn.get_layer(&Layers::Tcp) {
        assert_eq!(tcp.get_flags(), 2);
        assert_eq!(tcp.get_window(), 515);
        assert_eq!(tcp.get_sequence(), 77);
        assert_eq!(tcp.get_source(), 1000);
    } else {
        panic!("no TCP layer");
    }
    let mut arp = p.arp().unwrap();
    if let Some(LayerMut::Arp(a)) = arp.get_layer(&Layers::Arp) {
        assert_eq!(a.get_operation(), 2);
        assert_eq!(a.get_sender_proto_addr(), [11, 11, 11, 11]);
        assert_eq!(a.get_target_hw_addr(), [0x33; 6]);
    } else {
        panic!("no ARP layer");
    }
    let frame = arp.build().unwrap();
    assert_eq!(frame.len(), 14 + 4 + 28);
    assert_eq!(&frame[16..18], &[0x08, 0x06]);
    let basic = p.basic().unwrap().build().unwrap();
    assert_eq!(basic.len(), 14 + 4 + 20 + 20);
}

#[test]
fn layer_kinds_are_ordered() {
    assert!(Layers::Ether < Layers::Vlan);
    assert!(Layers::Tcp < Layers::Payload);
    assert_eq!(Layers::Ipv4.minimum_size(), 20);
    assert!(Layers::Ether.allows_child(&Layers::Arp));
    assert!(!Layers::Ether.allows_child(&Layers::Tcp));
    assert!(Layers::Vlan.reorders_with(&Layers::Ipv6, &Layers::Vlan));
}
