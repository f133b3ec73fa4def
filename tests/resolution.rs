use netstack::arp::{parse_arp_packet, Arp, ArpPacket, TranslationTable, TranslationTableKey};
use netstack::error::NetError;
use netstack::ethernet::{EthernetFrame, EthernetPayload, HandleFrame};
use netstack::net::NetworkDevice;

const MY_IP: [u8; 4] = [10, 0, 0, 1];
const MY_MAC: [u8; 6] = [0x02, 0, 0, 0, 0, 0x01];
const PEER_IP: [u8; 4] = [10, 0, 0, 5];
const PEER_MAC: [u8; 6] = [0xaa, 0xbb, 0xcc, 0xdd, 0xee, 0xff];
const IPV4: u16 = 0x0800;

fn node() -> NetworkDevice {
    NetworkDevice::new(MY_IP, MY_MAC)
}

fn packet(operation: u16, sender_mac: [u8; 6], target_ip: [u8; 4]) -> ArpPacket {
    ArpPacket {
        hardware_type: 1,
        protocol_type: IPV4,
        hardware_length: 6,
        protocol_length: 4,
        operation,
        sender_hardware_addr: sender_mac,
        sender_protocol_addr: PEER_IP,
        target_hardware_addr: [0; 6],
        target_protocol_addr: target_ip,
    }
}

fn frame_of(p: &ArpPacket) -> EthernetFrame {
    EthernetFrame {
        dest_mac: [0xff; 6],
        source_mac: p.sender_hardware_addr,
        ethertype: 0x0806,
        payload: EthernetPayload::new(p.to_vec()),
    }
}

fn peer_key() -> TranslationTableKey {
    TranslationTableKey::new(IPV4, PEER_IP)
}

#[test]
fn request_for_this_node_is_answered_and_learned() {
    let mut arp = Arp::new(&node());
    let out = arp.handle_frame(&frame_of(&packet(1, PEER_MAC, MY_IP))).unwrap();
    let reply = parse_arp_packet(out.unwrap().as_vec()).unwrap();
    assert_eq!(reply.operation, 2);
    assert_eq!(reply.hardware_type, 1);
    assert_eq!(reply.protocol_type, IPV4);
    assert_eq!(reply.hardware_length, 6);
    assert_eq!(reply.protocol_length, 4);
    assert_eq!(reply.sender_hardware_addr, MY_MAC);
    assert_eq!(reply.sender_protocol_addr, MY_IP);
    assert_eq!(reply.target_hardware_addr, PEER_MAC);
    assert_eq!(reply.target_protocol_addr, PEER_IP);
    assert_eq!(arp.lookup(&peer_key()), Some(PEER_MAC));
}

#[test]
fn request_for_another_node_is_neither_answered_nor_learned() {
    let mut arp = Arp::new(&node());
    let out = arp.handle_frame(&frame_of(&packet(1, PEER_MAC, [10, 0, 0, 9]))).unwrap();
    assert!(out.is_none());
    assert_eq!(arp.lookup(&peer_key()), None);
}

#[test]
fn known_sender_is_refreshed_whatever_the_target() {
    let new_mac = [0x11, 0x22, 0x33, 0x44, 0x55, 0x66];
    for operation in [1u16, 2, 7] {
        let mut arp = Arp::new(&node());
        arp.handle_arp_packet(&packet(2, PEER_MAC, MY_IP)).unwrap();
        assert_eq!(arp.lookup(&peer_key()), Some(PEER_MAC));
        let out = arp.handle_arp_packet(&packet(operation, new_mac, [10, 0, 0, 9])).unwrap();
        assert_eq!(out, None);
        assert_eq!(arp.lookup(&peer_key()), Some(new_mac));
    }
}

#[test]
fn reply_for_this_node_is_learned_without_answer() {
    let mut arp = Arp::new(&node());
    let out = arp.handle_arp_packet(&packet(2, PEER_MAC, MY_IP)).unwrap();
    assert_eq!(out, None);
    assert_eq!(arp.lookup(&peer_key()), Some(PEER_MAC));
}

#[test]
fn non_ethernet_hardware_is_rejected_without_learning() {
    let mut arp = Arp::new(&node());
    let mut p = packet(1, PEER_MAC, MY_IP);
    p.hardware_type = 6;
    assert_eq!(arp.handle_arp_packet(&p), Err(NetError::UnsupportedHardwareType(6)));
    assert_eq!(arp.lookup(&peer_key()), None);
}

#[test]
fn short_arp_payload_is_rejected_by_the_handler() {
    let mut arp = Arp::new(&node());
    let frame = EthernetFrame {
        dest_mac: [0xff; 6],
        source_mac: PEER_MAC,
        ethertype: 0x0806,
        payload: EthernetPayload::new(vec![0; 27]),
    };
    assert_eq!(arp.handle_frame(&frame).unwrap_err(), NetError::InvalidArpLength(27));
    assert_eq!(arp.ethertype(), 0x0806);
}

#[test]
fn table_keys_separate_protocol_types_and_addresses() {
    let mut t = TranslationTable::new();
    let a = TranslationTableKey::new(IPV4, [10, 0, 0, 5]);
    let b = TranslationTableKey::new(0x86dd, [10, 0, 0, 5]);
    let c = TranslationTableKey::new(IPV4, [10, 0, 5, 0]);
    t.insert(a, [1; 6]);
    assert!(t.contains_key(&a));
    assert!(!t.contains_key(&b));
    assert!(!t.contains_key(&c));
    t.insert(b, [2; 6]);
    t.insert(a, [3; 6]);
    assert_eq!(t.lookup(&a), Some([3; 6]));
    assert_eq!(t.lookup(&b), Some([2; 6]));
    assert_eq!(t.lookup(&c), None);
}
