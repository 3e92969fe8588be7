use pnet_layers::EtherMut;

#[test]
fn ether_padding_test_layer_build() {
    let bytes = hex::decode("2222222222221111111111118100800a080045000028487640004006dbe10101010102020202b3ec9076015297b1dda5d28c5010020009c300000000").unwrap();

    let ether = EtherMut::from_buf(bytes).unwrap();

    let builded = ether.build().unwrap();

    let bytes = hex::decode("2222222222221111111111118100800a080045000028487640004006dbe10101010102020202b3ec9076015297b1dda5d28c5010020009c30000").unwrap();
    assert_eq!(builded.len(), bytes.len());
}

#[test]
fn padding_trimmed_and_fields_kept() {
    let captured = hex::decode("2222222222221111111111118100800a080045000028487640004006dbe10101010102020202b3ec9076015297b1dda5d28c5010020009c300000000").unwrap();
    let rebuilt = EtherMut::from_buf(captured.clone()).unwrap().build().unwrap();
    // two bytes of padding dropped; every header field kept but the two checksums, which the
    // capture carries stale and which are computed afresh
    assert_eq!(rebuilt.len(), captured.len() - 2);
    assert_eq!(&rebuilt[..28], &captured[..28]);
    assert_eq!(&rebuilt[30..54], &captured[30..54]);
    assert_eq!(&rebuilt[56..58], &captured[56..58]);
    assert_eq!(&rebuilt[28..30], &[0xec, 0x54]);
    assert_eq!(&rebuilt[54..56], &[0x1a, 0x36]);
}
