use netstack::arp::{parse_arp_packet, ArpPacket};
use netstack::error::NetError;
use netstack::ethernet::{EthernetFrame, EthernetPayload};
use netstack::wire::slice_to_u16;

fn sample_arp_bytes() -> Vec<u8> {
    vec![
        0x00, 0x01, 0x08, 0x00, 6, 4, 0x00, 0x01, 0xaa, 0xbb, 0xcc, 0xdd, 0xee, 0xff, 10, 0, 0, 5,
        0, 0, 0, 0, 0, 0, 10, 0, 0, 1,
    ]
}

#[test]
fn arp_decode_reads_every_field() {
    let p = parse_arp_packet(&sample_arp_bytes()).unwrap();
    assert_eq!(p.hardware_type, 1);
    assert_eq!(p.protocol_type, 0x0800);
    assert_eq!(p.hardware_length, 6);
    assert_eq!(p.protocol_length, 4);
    assert_eq!(p.operation, 1);
    assert_eq!(p.sender_hardware_addr, [0xaa, 0xbb, 0xcc, 0xdd, 0xee, 0xff]);
    assert_eq!(p.sender_protocol_addr, [10, 0, 0, 5]);
    assert_eq!(p.target_hardware_addr, [0; 6]);
    assert_eq!(p.target_protocol_addr, [10, 0, 0, 1]);
}

#[test]
fn arp_round_trip_gives_back_the_bytes() {
    let bytes = sample_arp_bytes();
    let p = parse_arp_packet(&bytes).unwrap();
    assert_eq!(p.to_vec(), bytes);

    let odd: Vec<u8> = (0u8..28).map(|i| i.wrapping_mul(37).wrapping_add(200)).collect();
    assert_eq!(parse_arp_packet(&odd).unwrap().to_vec(), odd);
}

#[test]
fn arp_encode_is_big_endian_in_field_order() {
    let p = ArpPacket {
        hardware_type: 0x0102,
        protocol_type: 0x0304,
        hardware_length: 0x05,
        protocol_length: 0x06,
        operation: 0x0708,
        sender_hardware_addr: [9, 10, 11, 12, 13, 14],
        sender_protocol_addr: [15, 16, 17, 18],
        target_hardware_addr: [19, 20, 21, 22, 23, 24],
        target_protocol_addr: [25, 26, 27, 28],
    };
    let expected: Vec<u8> = (1u8..=28).collect();
    assert_eq!(p.to_vec(), expected);
    assert_eq!(parse_arp_packet(&expected).unwrap(), p);
}

#[test]
fn arp_decode_rejects_wrong_lengths() {
    for len in [0usize, 1, 27, 29, 60] {
        let r = parse_arp_packet(&vec![0u8; len]);
        assert_eq!(r, Err(NetError::InvalidArpLength(len)));
    }
}

#[test]
fn frame_decode_reads_header_and_copies_payload() {
    let raw: Vec<u8> = vec![1, 2, 3, 4, 5, 6, 7, 8, 9, 10, 11, 12, 0x08, 0x06, 0xde, 0xad];
    let f = EthernetFrame::decode(&raw).unwrap();
    drop(raw);
    assert_eq!(f.dest_mac, [1, 2, 3, 4, 5, 6]);
    assert_eq!(f.source_mac, [7, 8, 9, 10, 11, 12]);
    assert_eq!(f.ethertype, 0x0806);
    assert_eq!(f.payload.as_vec(), &vec![0xde, 0xad]);
}

#[test]
fn frame_round_trip_gives_back_the_bytes() {
    let header_only: Vec<u8> = vec![0xff; 14];
    assert_eq!(EthernetFrame::decode(&header_only).unwrap().to_vec(), header_only);

    let long: Vec<u8> = (0..1514u32).map(|i| (i * 7 % 256) as u8).collect();
    assert_eq!(EthernetFrame::decode(&long).unwrap().to_vec(), long);
}

#[test]
fn frame_encode_concatenates_fields() {
    let f = EthernetFrame {
        dest_mac: [1, 2, 3, 4, 5, 6],
        source_mac: [0xa, 0xb, 0xc, 0xd, 0xe, 0xf],
        ethertype: 0x86dd,
        payload: EthernetPayload::new(vec![0x42, 0x43]),
    };
    assert_eq!(
        f.to_vec(),
        vec![1, 2, 3, 4, 5, 6, 0xa, 0xb, 0xc, 0xd, 0xe, 0xf, 0x86, 0xdd, 0x42, 0x43]
    );
}

#[test]
fn frame_decode_rejects_short_buffers() {
    for len in [0usize, 1, 6, 13] {
        let r = EthernetFrame::decode(&vec![0u8; len]);
        assert!(matches!(r, Err(NetError::FrameTooShort(n)) if n == len));
    }
}

#[test]
fn payload_keeps_its_bytes() {
    let p = EthernetPayload::new(vec![5, 6, 7]);
    assert_eq!(p.as_vec(), &vec![5, 6, 7]);
}

#[test]
fn u16_read_is_big_endian() {
    assert_eq!(slice_to_u16(&[0x12, 0x34]), 0x1234);
    assert_eq!(slice_to_u16(&[0xff, 0x00, 0x01]), 0xff00);
}
