use pnet::util::MacAddr;
use pnet_layers::{
    Arp, ArpMut, EtherMut, Ipv4Mut, LayerImmutable, LayerMut, Layers, TcpMut, VlanMut,
};
use std::str::FromStr;

#[test]
fn layers_test_layer_build() {
    let eth_dst = MacAddr::from_str("33:33:33:33:33:33").unwrap().octets();
    let eth_src = MacAddr::from_str("44:44:44:44:44:44").unwrap().octets();
    let vlan_id = 1;
    let ipv4_src = [11u8, 11, 11, 11];
    let ipv4_dst = [169u8, 254, 17, 10];
    let sport = 1000;
    let dport = 13400;

    let mut ether = EtherMut::new();
    ether.set_source(eth_src);
    ether.set_destination(eth_dst);

    let mut vlan = VlanMut::new();
    vlan.set_vlan_identifier(vlan_id);

    let mut ipv4 = Ipv4Mut::new();
    ipv4.set_source(ipv4_src);
    ipv4.set_destination(ipv4_dst);
    ipv4.set_identification(10);

    let mut tcp = TcpMut::new();
    tcp.set_destination(dport);
    tcp.set_source(sport);
    tcp.set_flags(2);
    tcp.set_window(515);
    tcp.set_acknowledgement(0);

    let mut ether_tcp = ether.clone();
    assert!(ether_tcp.add(LayerMut::Vlan(vlan.clone())));
    assert!(ether_tcp.add(LayerMut::Ipv4(ipv4.clone())));
    assert!(ether_tcp.add(LayerMut::Tcp(tcp.clone())));

    {
        // a VLAN added after IPv4 is nested below it: ether > vlan > ipv4 > tcp
        let mut ether_tcp_vlan = ether.clone();
        assert!(ether_tcp_vlan.add(LayerMut::Ipv4(ipv4.clone())));
        assert!(ether_tcp_vlan.add(LayerMut::Vlan(vlan.clone())));
        assert!(ether_tcp_vlan.add(LayerMut::Tcp(tcp.clone())));

        assert_eq!(format!("{ether_tcp:?}"), format!("{ether_tcp_vlan:?}"));
        assert_eq!(
            ether_tcp.clone().build().unwrap(),
            ether_tcp_vlan.build().unwrap()
        );
    }

    {
        let mut ether_tcp_vlan = ether.clone();
        // there is no IPv4 layer, so TCP cannot be added
        assert!(!ether_tcp_vlan.add(LayerMut::Tcp(tcp)));
    }

    assert_eq!(ether_tcp.get_source(), eth_src);

    if let LayerMut::Vlan(pkt) = ether_tcp.get_layer(&Layers::Vlan).unwrap() {
        assert_eq!(pkt.get_vlan_identifier(), vlan_id);
    } else {
        panic!("Could not get vlan");
    }

    if let LayerMut::Ipv4(pkt) = ether_tcp.get_layer(&Layers::Ipv4).unwrap() {
        assert_eq!(pkt.get_source(), ipv4_src);
    } else {
        panic!("Could not get ipv4");
    }

    if let LayerMut::Tcp(pkt) = ether_tcp.get_layer(&Layers::Tcp).unwrap() {
        assert_eq!(pkt.get_source(), sport);
    } else {
        panic!("Could not get tcp");
    }
}

#[test]
fn test_arp_layer() {
    let mac = MacAddr::from_str("3c:ce:33:33:33:33").expect("could not get mac");
    let expected = [
        0u8, 0, 0, 0, 0, 0, 0, 0, 60, 206, 51, 51, 51, 51, 0, 0, 0, 0, 0, 0, 0, 0, 0, 0, 0, 0,
        0, 0,
    ];
    {
        // mutate and build
        let mut arp = ArpMut::new();
        arp.set_sender_hw_addr(mac.octets());
        assert_eq!(&expected, arp.build().expect("could not build").as_slice());
    }

    let arp = Arp::new(&expected);
    {
        // read through pnet's own view of the bytes
        let pnet = pnet::packet::arp::ArpPacket::new(arp.get_buf()).expect("could not generate pnet");
        assert_eq!(mac, pnet.get_sender_hw_addr());
    }
    {
        // convert the immutable view to a mutable layer and build
        let mut arp = arp.as_mut().expect("could not generate pnet");
        arp.set_sender_hw_addr(MacAddr::zero().octets());
        assert_eq!(
            &[0u8; 28],
            arp.clone().build().expect("could not build").as_slice()
        );
        arp.set_sender_hw_addr(mac.octets());
        assert_eq!(&expected, arp.build().expect("could not build").as_slice());
    }

    assert!(arp.get_layer(Layers::Udp).is_none());
}

#[test]
fn test_tcp_layer() {
    let packet = hex::decode("b3ece804018999b993a5ee1d50100200de6400000000").expect("failed");
    let tcp = TcpMut::from_buf(packet.clone()).expect("");
    assert_eq!(
        &packet,
        tcp.clone().build().expect("could not build").as_slice()
    );
    assert_eq!(tcp.get_destination(), 59396);
    assert_eq!(tcp.get_source(), 46060);
}
