use wol::wol::{
    Datagram, MagicPacket, ANY_ADDRESS, BROADCAST_ADDRESS, EPHEMERAL_PORT, MAC_LEN, PAYLOAD_LEN,
    REPETITIONS, SYNC_BYTE, SYNC_LEN, WAKE_PORT,
};

const TARGET: [u8; 6] = [0xAA, 0xBB, 0xCC, 0xDD, 0xEE, 0xFF];

const TARGET_PAYLOAD: [u8; 102] = [
    0xFF, 0xFF, 0xFF, 0xFF, 0xFF, 0xFF, //
    0xAA, 0xBB, 0xCC, 0xDD, 0xEE, 0xFF, //
    0xAA, 0xBB, 0xCC, 0xDD, 0xEE, 0xFF, //
    0xAA, 0xBB, 0xCC, 0xDD, 0xEE, 0xFF, //
    0xAA, 0xBB, 0xCC, 0xDD, 0xEE, 0xFF, //
    0xAA, 0xBB, 0xCC, 0xDD, 0xEE, 0xFF, //
    0xAA, 0xBB, 0xCC, 0xDD, 0xEE, 0xFF, //
    0xAA, 0xBB, 0xCC, 0xDD, 0xEE, 0xFF, //
    0xAA, 0xBB, 0xCC, 0xDD, 0xEE, 0xFF, //
    0xAA, 0xBB, 0xCC, 0xDD, 0xEE, 0xFF, //
    0xAA, 0xBB, 0xCC, 0xDD, 0xEE, 0xFF, //
    0xAA, 0xBB, 0xCC, 0xDD, 0xEE, 0xFF, //
    0xAA, 0xBB, 0xCC, 0xDD, 0xEE, 0xFF, //
    0xAA, 0xBB, 0xCC, 0xDD, 0xEE, 0xFF, //
    0xAA, 0xBB, 0xCC, 0xDD, 0xEE, 0xFF, //
    0xAA, 0xBB, 0xCC, 0xDD, 0xEE, 0xFF, //
    0xAA, 0xBB, 0xCC, 0xDD, 0xEE, 0xFF,
];

fn assert_layout(mac: [u8; 6]) {
    let packet = MagicPacket::new(&mac, None);
    let bytes = packet.magic_bytes();
    assert_eq!(bytes.len(), 102);
    assert_eq!(&bytes[..6], &[0xFF; 6]);
    for copy in 0..16 {
        let start = 6 + 6 * copy;
        assert_eq!(&bytes[start..start + 6], &mac, "copy {copy}");
    }
}

fn assert_wake_datagram(datagram: &Datagram, payload: &[u8; 102], interface: Option<&str>) {
    assert_eq!(datagram.source_address, [0, 0, 0, 0]);
    assert_eq!(datagram.source_port, 0);
    assert!(datagram.broadcast);
    assert_eq!(datagram.interface.as_deref(), interface);
    assert_eq!(datagram.destination_address, [255, 255, 255, 255]);
    assert_eq!(datagram.destination_port, 9);
    assert_eq!(&datagram.payload, payload);
}

#[test]
fn constants_describe_the_layout() {
    assert_eq!(MAC_LEN, 6);
    assert_eq!(SYNC_LEN, 6);
    assert_eq!(REPETITIONS, 16);
    assert_eq!(PAYLOAD_LEN, 102);
    assert_eq!(SYNC_LEN + REPETITIONS * MAC_LEN, PAYLOAD_LEN);
    assert_eq!(SYNC_BYTE, 0xFF);
    assert_eq!(WAKE_PORT, 9);
    assert_eq!(EPHEMERAL_PORT, 0);
    assert_eq!(ANY_ADDRESS, [0, 0, 0, 0]);
    assert_eq!(BROADCAST_ADDRESS, [255, 255, 255, 255]);
}

#[test]
fn payload_is_sync_stream_then_sixteen_copies() {
    let packet = MagicPacket::new(&TARGET, None);
    assert_eq!(packet.magic_bytes(), &TARGET_PAYLOAD);
}

#[test]
fn payload_layout_holds_for_other_addresses() {
    assert_layout([0x00; 6]);
    assert_layout([0xFF; 6]);
    assert_layout([0x01, 0x23, 0x45, 0x67, 0x89, 0xAB]);
    assert_layout([0x00, 0x00, 0x00, 0x00, 0x00, 0x01]);
    assert_layout([0x80, 0x00, 0x00, 0x00, 0x00, 0x00]);
}

#[test]
fn payload_of_all_ones_address_is_all_ones() {
    let packet = MagicPacket::new(&[0xFF; 6], None);
    assert_eq!(packet.magic_bytes(), &[0xFF; 102]);
}

#[test]
fn payload_of_all_zero_address_keeps_the_sync_stream() {
    let packet = MagicPacket::new(&[0x00; 6], None);
    let mut expected = [0x00u8; 102];
    expected[..6].copy_from_slice(&[0xFF; 6]);
    assert_eq!(packet.magic_bytes(), &expected);
}

#[test]
fn payload_does_not_depend_on_the_interface() {
    let plain = MagicPacket::new(&TARGET, None);
    let bound = MagicPacket::new(&TARGET, Some(String::from("eth0")));
    assert_eq!(plain.magic_bytes(), bound.magic_bytes());
}

#[test]
fn send_describes_a_broadcast_to_the_wake_port() {
    let packet = MagicPacket::new(&TARGET, None);
    assert_wake_datagram(&packet.send(), &TARGET_PAYLOAD, None);
}

#[test]
fn send_uses_the_interface_the_packet_was_built_for() {
    let packet = MagicPacket::new(&TARGET, Some(String::from("eth0")));
    assert_wake_datagram(&packet.send(), &TARGET_PAYLOAD, Some("eth0"));
}

#[test]
fn send_from_uses_the_interface_it_is_given() {
    let packet = MagicPacket::new(&TARGET, Some(String::from("eth0")));
    assert_wake_datagram(&packet.send_from(Some("wlan0")), &TARGET_PAYLOAD, Some("wlan0"));
    assert_wake_datagram(&packet.send_from(None), &TARGET_PAYLOAD, None);
}

#[test]
fn send_from_keeps_an_empty_interface_name() {
    let packet = MagicPacket::new(&TARGET, None);
    assert_wake_datagram(&packet.send_from(Some("")), &TARGET_PAYLOAD, Some(""));
}

#[test]
fn send_can_be_repeated() {
    let packet = MagicPacket::new(&TARGET, Some(String::from("eth0")));
    let first = packet.send();
    let second = packet.send();
    assert_wake_datagram(&first, &TARGET_PAYLOAD, Some("eth0"));
    assert_wake_datagram(&second, &TARGET_PAYLOAD, Some("eth0"));
}

#[test]
fn clone_keeps_payload_and_interface() {
    let packet = MagicPacket::new(&TARGET, Some(String::from("eth0")));
    let copy = packet.clone();
    assert_eq!(copy.magic_bytes(), &TARGET_PAYLOAD);
    assert_wake_datagram(&copy.send(), &TARGET_PAYLOAD, Some("eth0"));
    let plain = MagicPacket::new(&TARGET, None).clone();
    assert_wake_datagram(&plain.send(), &TARGET_PAYLOAD, None);
}
