use sensor_swarm::radio::protocol::{Packet, PacketControl, MAX_PAYLOAD_SIZE, PACKET_SIZE_BYTES};

#[test]
fn test_packet_control_flags() {
    let mut control = PacketControl::new();

    assert!(!control.is_ack_request());
    assert!(!control.is_ack());
    assert!(!control.is_emergency());
    assert!(!control.is_retransmit());

    control.set_ack_request(true);
    assert!(control.is_ack_request());

    control.set_ack_response(true);
    assert!(control.is_ack());

    control.set_emergency(true);
    assert!(control.is_emergency());

    control.set_retransmit(true);
    assert!(control.is_retransmit());

    control.set_ack_request(false);
    assert!(!control.is_ack_request());
}

#[test]
fn test_packet_creation() {
    let payload = b"Hello, World!";
    let packet = Packet::new(0x1234, 0x5678, 42, payload);

    assert!(packet.header.sender_id == 0x1234);
    assert!(packet.header.target_id == 0x5678);
    assert!(packet.header.sequence_number == 42);
    assert!(packet.header.payload_len == payload.len() as u8);
    assert!(packet.payload_data() == payload);
}

#[test]
fn test_packet_serialization_deserialization() {
    let sent_payload = b"Test data 123";
    let sent_packet = Packet::new(0xABCD, 0xEF01, 999, sent_payload);

    let bytes = sent_packet.to_bytes();
    let deserialized_packet = Packet::from_bytes(&bytes);

    assert!(deserialized_packet.header.sender_id == sent_packet.header.sender_id);
    assert!(deserialized_packet.header.target_id == sent_packet.header.target_id);
    assert!(deserialized_packet.header.sequence_number == sent_packet.header.sequence_number);
    assert!(deserialized_packet.header.payload_len == sent_packet.header.payload_len);
    assert!(deserialized_packet.payload_data() == sent_packet.payload_data());
    assert!(deserialized_packet == sent_packet);
}

#[test]
fn test_packet_creation_integration() {
    let packet = Packet::new(0x1234, 0x5678, 42, b"test");
    assert!(packet.header.sender_id == 0x1234);
    assert!(packet.header.target_id == 0x5678);
    assert!(packet.header.sequence_number == 42);
    assert!(packet.payload_data() == b"test");
}

#[test]
fn packet_bytes_are_little_endian_header_then_payload() {
    let mut packet = Packet::new(0x1234, 0xABCD, 0x0102, b"xy");
    packet.header.control.set_emergency(true);
    let bytes = packet.to_bytes();
    assert_eq!(PACKET_SIZE_BYTES, 40);
    assert_eq!(&bytes[..8], &[0x34, 0x12, 0xCD, 0xAB, 0x02, 0x01, 0x04, 2]);
    assert_eq!(&bytes[8..10], b"xy");
    assert!(bytes[10..].iter().all(|b| *b == 0));
}

#[test]
fn long_payload_is_cut_to_capacity() {
    let long = [7u8; 50];
    let packet = Packet::new(1, 2, 3, &long);
    assert_eq!(packet.header.payload_len as usize, MAX_PAYLOAD_SIZE);
    assert_eq!(packet.payload_data(), &long[..MAX_PAYLOAD_SIZE]);
}

#[test]
fn empty_payload_gives_empty_data() {
    let packet = Packet::new(1, 2, 3, &[]);
    assert_eq!(packet.header.payload_len, 0);
    assert!(packet.payload_data().is_empty());
    assert!(packet.payload.iter().all(|b| *b == 0));
}

#[test]
fn decoding_keeps_reserved_control_bits() {
    let mut bytes = [0u8; PACKET_SIZE_BYTES];
    bytes[6] = 0xF5;
    bytes[7] = 3;
    let packet = Packet::from_bytes(&bytes);
    assert!(packet.header.control.is_ack_request());
    assert!(!packet.header.control.is_ack());
    assert!(packet.header.control.is_emergency());
    assert!(!packet.header.control.is_retransmit());
    assert_eq!(packet.header.control.into_bits(), 0xF5);
    assert_eq!(packet.to_bytes(), bytes);
}

#[test]
fn setting_one_flag_leaves_the_others() {
    let mut control = PacketControl::from_bits(0xF0);
    control.set_retransmit(true);
    assert_eq!(control.into_bits(), 0xF8);
    control.set_ack_response(true);
    control.set_retransmit(false);
    assert_eq!(control.into_bits(), 0xF2);
}
