use pnet_layers::{parse_ipv4, parse_options, parse_vlan, LayerMut, Layers};

#[test]
fn test_craft() {
    let crafted = LayerMut::parse("Vlan(id: 10)").unwrap();
    assert!(matches!(crafted, LayerMut::Vlan(_)));
    if let LayerMut::Vlan(vlan) = crafted {
        assert_eq!(vlan.get_vlan_identifier(), 10);
    }
}

#[test]
fn craft_two_segments() {
    let crafted = LayerMut::parse("Vlan(id: 7, prio: 3)/IPv4(src: 10.0.0.1, dst: 192.168.1.20)").unwrap();
    let LayerMut::Vlan(mut vlan) = crafted else {
        panic!("root is not a VLAN");
    };
    assert_eq!(vlan.get_vlan_identifier(), 7);
    assert_eq!(vlan.get_priority_code_point(), 3);
    let Some(LayerMut::Ipv4(ip)) = vlan.get_layer(&Layers::Ipv4) else {
        panic!("no IPv4 above the VLAN");
    };
    assert_eq!(ip.get_source(), [10, 0, 0, 1]);
    assert_eq!(ip.get_destination(), [192, 168, 1, 20]);
}

#[test]
fn craft_spaced_segments() {
    let crafted = LayerMut::parse("Vlan(id: 10) / IPv4(src: 10.10.10.10, dst: 1.1.1.1)").unwrap();
    let LayerMut::Vlan(mut vlan) = crafted else {
        panic!("root is not a VLAN");
    };
    assert_eq!(vlan.get_vlan_identifier(), 10);
    let Some(LayerMut::Ipv4(ip)) = vlan.get_layer(&Layers::Ipv4) else {
        panic!("no IPv4 above the VLAN");
    };
    assert_eq!(ip.get_source(), [10, 10, 10, 10]);
    assert_eq!(ip.get_destination(), [1, 1, 1, 1]);
}

#[test]
fn unicode_whitespace_is_trimmed() {
    let ip = parse_ipv4("IPv4(src:\u{A0}1.2.3.4\u{3000}, dst:\u{B}5.6.7.8 )").unwrap();
    assert_eq!(ip.get_source(), [1, 2, 3, 4]);
    assert_eq!(ip.get_destination(), [5, 6, 7, 8]);
    let opts = parse_options("\u{2009}id\u{85}:\u{2028}7");
    assert_eq!(opts.len(), 1);
    assert_eq!(opts[0].0, b"id");
    assert_eq!(opts[0].1, b"7");
}

#[test]
fn craft_skips_unknown_and_unframed_segments() {
    assert!(LayerMut::parse("Foo(x: 1)").is_none());
    let crafted = LayerMut::parse("Vlan(id: 4) / Foo(x: 1)").unwrap();
    let LayerMut::Vlan(vlan) = crafted else {
        panic!("root is not a VLAN");
    };
    assert!(vlan.upper_layer.is_none());
    assert!(LayerMut::parse("").is_none());
}

#[test]
fn craft_bad_values_leave_defaults() {
    let vlan = parse_vlan("Vlan(id: ten, prio: 300)").unwrap();
    assert_eq!(vlan.get_vlan_identifier(), 0);
    assert_eq!(vlan.get_priority_code_point(), 0);
    let vlan = parse_vlan("Vlan(id: +12)").unwrap();
    assert_eq!(vlan.get_vlan_identifier(), 12);
    assert!(parse_vlan("Vlan(id: 1").is_none());
    assert!(parse_vlan("vlan(id: 1)").is_none());
    let ip = parse_ipv4("IPv4(src: 1.2.3.256, dst: 01.2.3.4)").unwrap();
    assert_eq!(ip.get_source(), [0, 0, 0, 0]);
    assert_eq!(ip.get_destination(), [0, 0, 0, 0]);
    let ip = parse_ipv4("IPv4(dst: 9.8.7.6, dst: 1.2.3.4)").unwrap();
    assert_eq!(ip.get_destination(), [1, 2, 3, 4]);
    assert!(parse_ipv4("Vlan(id: 1)").is_none());
}

#[test]
fn options_are_split_and_trimmed() {
    let opts = parse_options(" id : 10 ,noise, prio:2");
    assert_eq!(opts.len(), 2);
    assert_eq!(opts[0].0, b"id");
    assert_eq!(opts[0].1, b"10");
    assert_eq!(opts[1].0, b"prio");
    assert_eq!(opts[1].1, b"2");
    assert!(parse_options("").is_empty());
}
