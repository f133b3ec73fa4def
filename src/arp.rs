use vstd::prelude::*;

use std::collections::HashMap;

use crate::error::NetError;
use crate::ethernet::{payload_view, EthernetFrame, EthernetFrameView, EthernetPayload, HandleFrame};
use crate::net::{HwAddr, NetworkDevice, IP};
use crate::wire::{
    be16, be16_bytes, lemma_be16_of_bytes, lemma_bytes_of_be16, push_bytes, push_u16, slice_to_u16,
};

verus! {

/// Hardware type of Ethernet.
pub const ETH_HTYPE: u16 = 0x0001;

/// Operation code of a request.
pub const ARP_OP_REQUEST: u16 = 0x0001;

/// Operation code of a reply.
pub const ARP_OP_REPLY: u16 = 0x0002;

/// Length of an ARP packet for Ethernet and IPv4.
pub const ARP_PACKET_LEN: usize = 28;

/// The ethertype under which ARP travels.
pub const ARP_ETHERTYPE: u16 = 0x0806;

/// An ARP packet for Ethernet hardware addresses and IPv4 protocol addresses.
#[derive(Clone, Copy, Debug, PartialEq, Eq)]
pub struct ArpPacket {
    pub hardware_type: u16,
    pub protocol_type: u16,
    pub hardware_length: u8,
    pub protocol_length: u8,
    pub operation: u16,
    pub sender_hardware_addr: HwAddr,
    pub sender_protocol_addr: IP,
    pub target_hardware_addr: HwAddr,
    pub target_protocol_addr: IP,
}

impl ArpPacket {
    /// The 28 bytes of the packet on the wire, multi-byte integers big-endian.
    pub open spec fn wire(self) -> Seq<u8> {
        be16_bytes(self.hardware_type) + be16_bytes(self.protocol_type) + seq![
            self.hardware_length,
            self.protocol_length,
        ] + be16_bytes(self.operation) + self.sender_hardware_addr@ + self.sender_protocol_addr@
            + self.target_hardware_addr@ + self.target_protocol_addr@
    }

    /// Serializes the packet in wire order.
    pub fn to_vec(&self) -> (r: Vec<u8>)
        ensures
            r@ == self.wire(),
    {
        let mut p: Vec<u8> = Vec::new();
        push_u16(&mut p, self.hardware_type);
        push_u16(&mut p, self.protocol_type);
        p.push(self.hardware_length);
        p.push(self.protocol_length);
        push_u16(&mut p, self.operation);
        push_bytes(&mut p, &self.sender_hardware_addr);
        push_bytes(&mut p, &self.sender_protocol_addr);
        push_bytes(&mut p, &self.target_hardware_addr);
        push_bytes(&mut p, &self.target_protocol_addr);
        assert(p@ =~= self.wire());
        p
    }
}

/// The packet that the 28 bytes `b` hold.
pub open spec fn arp_of(b: Seq<u8>) -> ArpPacket
    recommends
        b.len() == ARP_PACKET_LEN,
{
    ArpPacket {
        hardware_type: be16(b[0], b[1]),
        protocol_type: be16(b[2], b[3]),
        hardware_length: b[4],
        protocol_length: b[5],
        operation: be16(b[6], b[7]),
        sender_hardware_addr: [b[8], b[9], b[10], b[11], b[12], b[13]],
        sender_protocol_addr: [b[14], b[15], b[16], b[17]],
        target_hardware_addr: [b[18], b[19], b[20], b[21], b[22], b[23]],
        target_protocol_addr: [b[24], b[25], b[26], b[27]],
    }
}

/// Encoding a decoded packet gives back the 28 bytes it was decoded from.
pub proof fn lemma_arp_encode_decode(b: Seq<u8>)
    requires
        b.len() == ARP_PACKET_LEN,
    ensures
        arp_of(b).wire() == b,
{
    broadcast use vstd::array::group_array_axioms;

    lemma_bytes_of_be16(b[0], b[1]);
    lemma_bytes_of_be16(b[2], b[3]);
    lemma_bytes_of_be16(b[6], b[7]);
    assert(arp_of(b).wire() =~= b);
}

/// Decoding an encoded packet gives back the packet.
pub proof fn lemma_arp_decode_encode(p: ArpPacket)
    ensures
        p.wire().len() == ARP_PACKET_LEN,
        arp_of(p.wire()) == p,
{
    broadcast use vstd::array::group_array_axioms;

    lemma_be16_of_bytes(p.hardware_type);
    lemma_be16_of_bytes(p.protocol_type);
    lemma_be16_of_bytes(p.operation);
    let q = arp_of(p.wire());
    assert(q.sender_hardware_addr =~= p.sender_hardware_addr);
    assert(q.target_hardware_addr =~= p.target_hardware_addr);
    assert(q.sender_protocol_addr =~= p.sender_protocol_addr);
    assert(q.target_protocol_addr =~= p.target_protocol_addr);
}

/// Decodes an ARP packet; the payload must be exactly 28 bytes.
pub fn parse_arp_packet(payload: &Vec<u8>) -> (r: Result<ArpPacket, NetError>)
    ensures
        match r {
            Ok(p) => payload@.len() == ARP_PACKET_LEN && p == arp_of(payload@),
            Err(e) => payload@.len() != ARP_PACKET_LEN && e == NetError::InvalidArpLength(
                payload@.len() as usize,
            ),
        },
{
    broadcast use vstd::array::group_array_axioms;

    if payload.len() != ARP_PACKET_LEN {
        return Err(NetError::InvalidArpLength(payload.len()));
    }
    let mut sender_hardware_addr: HwAddr = [0; 6];
    let mut target_hardware_addr: HwAddr = [0; 6];
    let mut sender_protocol_addr: IP = [0; 4];
    let mut target_protocol_addr: IP = [0; 4];
    let mut i: usize = 0;
    while i < 6
        invariant
            payload@.len() == ARP_PACKET_LEN,
            i <= 6,
            forall|j: int| 0 <= j < i ==> sender_hardware_addr[j] == payload@[j + 8],
            forall|j: int| 0 <= j < i ==> target_hardware_addr[j] == payload@[j + 18],
            forall|j: int| 0 <= j < i && j < 4 ==> sender_protocol_addr[j] == payload@[j + 14],
            forall|j: int| 0 <= j < i && j < 4 ==> target_protocol_addr[j] == payload@[j + 24],
        decreases 6 - i,
    {
        sender_hardware_addr[i] = payload[i + 8];
        target_hardware_addr[i] = payload[i + 18];
        if i < 4 {
            sender_protocol_addr[i] = payload[i + 14];
            target_protocol_addr[i] = payload[i + 24];
        }
        i = i + 1;
    }
    let p = ArpPacket {
        hardware_type: slice_to_u16(&payload[0..2]),
        protocol_type: slice_to_u16(&payload[2..4]),
        hardware_length: payload[4],
        protocol_length: payload[5],
        operation: slice_to_u16(&payload[6..8]),
        sender_hardware_addr: sender_hardware_addr,
        sender_protocol_addr: sender_protocol_addr,
        target_hardware_addr: target_hardware_addr,
        target_protocol_addr: target_protocol_addr,
    };
    let ghost q = arp_of(payload@);
    assert(p.sender_hardware_addr =~= q.sender_hardware_addr);
    assert(p.target_hardware_addr =~= q.target_hardware_addr);
    assert(p.sender_protocol_addr =~= q.sender_protocol_addr);
    assert(p.target_protocol_addr =~= q.target_protocol_addr);
    Ok(p)
}


/// Packs a protocol type and an IPv4 address into one integer.
pub open spec fn pack_key(t: u16, a0: u8, a1: u8, a2: u8, a3: u8) -> u64 {
    (t as u64) << 32u64 | (a0 as u64) << 24u64 | (a1 as u64) << 16u64 | (a2 as u64) << 8u64 | (
    a3 as u64)
}

proof fn lemma_pack_key_injective(
    t: u16,
    a0: u8,
    a1: u8,
    a2: u8,
    a3: u8,
    u: u16,
    b0: u8,
    b1: u8,
    b2: u8,
    b3: u8,
)
    by (bit_vector)
    requires
        pack_key(t, a0, a1, a2, a3) == pack_key(u, b0, b1, b2, b3),
    ensures
        t == u && a0 == b0 && a1 == b1 && a2 == b2 && a3 == b3,
{
}

/// Identifies an entry of the translation table: a protocol type and an address of it.
#[derive(Clone, Copy, Debug, PartialEq, Eq, Hash)]
pub struct TranslationTableKey {
    pub protocol_type: u16,
    pub protocol_addr: IP,
}

impl TranslationTableKey {
    pub fn new(t: u16, addr: IP) -> (r: TranslationTableKey)
        ensures
            r.protocol_type == t,
            r.protocol_addr == addr,
    {
        TranslationTableKey { protocol_type: t, protocol_addr: addr }
    }

    /// The integer under which the table files this key.
    pub open spec fn code(self) -> u64 {
        pack_key(
            self.protocol_type,
            self.protocol_addr[0],
            self.protocol_addr[1],
            self.protocol_addr[2],
            self.protocol_addr[3],
        )
    }

    fn to_code(&self) -> (r: u64)
        ensures
            r == self.code(),
    {
        let a = self.protocol_addr;
        (self.protocol_type as u64) << 32u64 | (a[0] as u64) << 24u64 | (a[1] as u64) << 16u64 | (
        a[2] as u64) << 8u64 | (a[3] as u64)
    }
}

/// Distinct keys are filed under distinct integers.
pub proof fn lemma_code_injective(k1: TranslationTableKey, k2: TranslationTableKey)
    ensures
        k1.code() == k2.code() ==> k1 == k2,
{
    broadcast use vstd::array::group_array_axioms;

    if k1.code() == k2.code() {
        let (a, b) = (k1.protocol_addr, k2.protocol_addr);
        lemma_pack_key_injective(
            k1.protocol_type,
            a[0],
            a[1],
            a[2],
            a[3],
            k2.protocol_type,
            b[0],
            b[1],
            b[2],
            b[3],
        );
        assert(a =~= b);
    }
}

/// The ARP cache: from a protocol address to the hardware address learned for it.
pub struct TranslationTable {
    entries: HashMap<u64, HwAddr>,
}

impl View for TranslationTable {
    type V = Map<TranslationTableKey, HwAddr>;

    closed spec fn view(&self) -> Map<TranslationTableKey, HwAddr> {
        Map::new(
            |k: TranslationTableKey| self.entries@.contains_key(k.code()),
            |k: TranslationTableKey| self.entries@[k.code()],
        )
    }
}

impl TranslationTable {
    /// An empty table.
    pub fn new() -> (r: TranslationTable)
        ensures
            r@ == Map::<TranslationTableKey, HwAddr>::empty(),
    {
        let r = TranslationTable { entries: HashMap::new() };
        assert(r@ =~= Map::<TranslationTableKey, HwAddr>::empty());
        r
    }

    pub fn contains_key(&self, key: &TranslationTableKey) -> (r: bool)
        ensures
            r == self@.contains_key(*key),
    {
        broadcast use vstd::std_specs::hash::group_hash_axioms;

        let c = key.to_code();
        self.entries.contains_key(&c)
    }

    /// The hardware address filed under `key`, if any.
    pub fn lookup(&self, key: &TranslationTableKey) -> (r: Option<HwAddr>)
        ensures
            r == (if self@.contains_key(*key) {
                Some(self@[*key])
            } else {
                None
            }),
    {
        broadcast use vstd::std_specs::hash::group_hash_axioms;

        let c = key.to_code();
        match self.entries.get(&c) {
            Some(hw) => Some(*hw),
            None => None,
        }
    }

    /// Files `hw` under `key`, replacing what was there.
    pub fn insert(&mut self, key: TranslationTableKey, hw: HwAddr)
        ensures
            final(self)@ == old(self)@.insert(key, hw),
    {
        broadcast use vstd::std_specs::hash::group_hash_axioms;

        let c = key.to_code();
        self.entries.insert(c, hw);
        assert forall|k: TranslationTableKey| k.code() == c implies k == key by {
            lemma_code_injective(k, key);
        }
        assert(self@ =~= old(self)@.insert(key, hw));
    }
}

/// The key under which a packet's sender is learned.
pub open spec fn sender_key(p: ArpPacket) -> TranslationTableKey {
    TranslationTableKey { protocol_type: p.protocol_type, protocol_addr: p.sender_protocol_addr }
}

/// The reply of node `me` to the request `p`.
pub open spec fn reply_for(me: NetworkDevice, p: ArpPacket) -> ArpPacket {
    ArpPacket {
        hardware_type: p.hardware_type,
        protocol_type: p.protocol_type,
        hardware_length: p.hardware_length,
        protocol_length: p.protocol_length,
        operation: ARP_OP_REPLY,
        sender_hardware_addr: me.hw,
        sender_protocol_addr: me.ip,
        target_hardware_addr: p.sender_hardware_addr,
        target_protocol_addr: p.sender_protocol_addr,
    }
}

/// The table after node `me` has handled `p`: a sender already known is
/// refreshed, and an unknown one is learned only from a packet addressed to `me`.
pub open spec fn learn(
    me: NetworkDevice,
    table: Map<TranslationTableKey, HwAddr>,
    p: ArpPacket,
) -> Map<TranslationTableKey, HwAddr> {
    if p.hardware_type != ETH_HTYPE {
        table
    } else if table.contains_key(sender_key(p)) || p.target_protocol_addr == me.ip {
        table.insert(sender_key(p), p.sender_hardware_addr)
    } else {
        table
    }
}

/// What node `me` answers to `p`: a reply to a request addressed to it, else nothing.
pub open spec fn answer(me: NetworkDevice, p: ArpPacket) -> Result<Option<ArpPacket>, NetError> {
    if p.hardware_type != ETH_HTYPE {
        Err(NetError::UnsupportedHardwareType(p.hardware_type))
    } else if p.target_protocol_addr == me.ip && p.operation == ARP_OP_REQUEST {
        Ok(Some(reply_for(me, p)))
    } else {
        Ok(None)
    }
}

/// The bytes of an answer.
pub open spec fn answer_wire(a: Result<Option<ArpPacket>, NetError>) -> Result<
    Option<Seq<u8>>,
    NetError,
> {
    match a {
        Ok(Some(p)) => Ok(Some(p.wire())),
        Ok(None) => Ok(None),
        Err(e) => Err(e),
    }
}

/// A sender that the table already knows is refreshed with the hardware
/// address of any Ethernet packet it sends, whatever its operation and target.
pub proof fn lemma_known_sender_refreshed(
    me: NetworkDevice,
    table: Map<TranslationTableKey, HwAddr>,
    p: ArpPacket,
)
    requires
        p.hardware_type == ETH_HTYPE,
        table.contains_key(sender_key(p)),
    ensures
        learn(me, table, p) == table.insert(sender_key(p), p.sender_hardware_addr),
        learn(me, table, p)[sender_key(p)] == p.sender_hardware_addr,
{
}

/// A packet not addressed to this node adds no entry to the table and is not
/// answered: it can only refresh a sender that was already known.
pub proof fn lemma_untargeted_learns_no_new_entry(
    me: NetworkDevice,
    table: Map<TranslationTableKey, HwAddr>,
    p: ArpPacket,
)
    requires
        p.target_protocol_addr != me.ip,
    ensures
        learn(me, table, p).dom() == table.dom(),
        !table.contains_key(sender_key(p)) ==> learn(me, table, p) == table,
        answer(me, p) is Err || answer(me, p) == Ok::<Option<ArpPacket>, NetError>(None),
{
    if p.hardware_type == ETH_HTYPE && table.contains_key(sender_key(p)) {
        assert(table.insert(sender_key(p), p.sender_hardware_addr).dom() =~= table.dom());
    }
}

fn ip_eq(a: &IP, b: &IP) -> (r: bool)
    ensures
        r == (*a == *b),
{
    broadcast use vstd::array::group_array_axioms;

    let r = a[0] == b[0] && a[1] == b[1] && a[2] == b[2] && a[3] == b[3];
    if r {
        assert(*a =~= *b);
    }
    r
}

/// The ARP engine of one node: its identity and its translation table.
pub struct Arp {
    dev: NetworkDevice,
    translation_table: TranslationTable,
}

impl Arp {
    /// The node's own identity.
    pub closed spec fn device(&self) -> NetworkDevice {
        self.dev
    }

    /// What the translation table holds.
    pub closed spec fn table(&self) -> Map<TranslationTableKey, HwAddr> {
        self.translation_table@
    }

    /// An engine for node `dev`, with an empty table.
    pub fn new(dev: &NetworkDevice) -> (r: Arp)
        ensures
            r.device() == *dev,
            r.table() == Map::<TranslationTableKey, HwAddr>::empty(),
    {
        Arp { dev: *dev, translation_table: TranslationTable::new() }
    }

    /// The hardware address learned for `key`, if any.
    pub fn lookup(&self, key: &TranslationTableKey) -> (r: Option<HwAddr>)
        ensures
            r == (if self.table().contains_key(*key) {
                Some(self.table()[*key])
            } else {
                None
            }),
    {
        self.translation_table.lookup(key)
    }

    /// Runs the resolution algorithm on one packet: updates the table and
    /// returns the reply to send, if any.
    pub fn handle_arp_packet(&mut self, packet: &ArpPacket) -> (r: Result<Option<ArpPacket>, NetError>)
        ensures
            final(self).device() == old(self).device(),
            final(self).table() == learn(old(self).device(), old(self).table(), *packet),
            r == answer(old(self).device(), *packet),
    {
        if packet.hardware_type != ETH_HTYPE {
            return Err(NetError::UnsupportedHardwareType(packet.hardware_type));
        }
        let key = TranslationTableKey::new(packet.protocol_type, packet.sender_protocol_addr);
        let mut merge = false;
        if self.translation_table.contains_key(&key) {
            self.translation_table.insert(key, packet.sender_hardware_addr);
            merge = true;
        }
        if ip_eq(&self.dev.ip, &packet.target_protocol_addr) {
            if !merge {
                self.translation_table.insert(key, packet.sender_hardware_addr);
            }
            if packet.operation == ARP_OP_REQUEST {
                let reply = ArpPacket {
                    hardware_type: packet.hardware_type,
                    protocol_type: packet.protocol_type,
                    hardware_length: packet.hardware_length,
                    protocol_length: packet.protocol_length,
                    operation: ARP_OP_REPLY,
                    sender_hardware_addr: self.dev.hw,
                    sender_protocol_addr: self.dev.ip,
                    target_hardware_addr: packet.sender_hardware_addr,
                    target_protocol_addr: packet.sender_protocol_addr,
                };
                return Ok(Some(reply));
            }
        }
        Ok(None)
    }
}

impl HandleFrame for Arp {
    open spec fn protocol(&self) -> u16 {
        ARP_ETHERTYPE
    }

    open spec fn handles(
        &self,
        frame: EthernetFrameView,
        next: Self,
        out: Result<Option<Seq<u8>>, NetError>,
    ) -> bool {
        &&& next.device() == self.device()
        &&& if frame.payload.len() != ARP_PACKET_LEN {
            &&& next.table() == self.table()
            &&& out == Err::<Option<Seq<u8>>, NetError>(
                NetError::InvalidArpLength(frame.payload.len() as usize),
            )
        } else {
            let p = arp_of(frame.payload);
            &&& next.table() == learn(self.device(), self.table(), p)
            &&& out == answer_wire(answer(self.device(), p))
        }
    }

    fn ethertype(&self) -> (r: u16) {
        ARP_ETHERTYPE
    }

    fn handle_frame(&mut self, frame: &EthernetFrame) -> (r: Result<Option<EthernetPayload>, NetError>) {
        let packet = match parse_arp_packet(frame.payload.as_vec()) {
            Ok(p) => p,
            Err(e) => return Err(e),
        };
        match self.handle_arp_packet(&packet) {
            Ok(Some(reply)) => Ok(Some(EthernetPayload::new(reply.to_vec()))),
            Ok(None) => Ok(None),
            Err(e) => Err(e),
        }
    }
}

} // verus!
