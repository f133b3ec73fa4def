use vstd::prelude::*;

use std::collections::HashMap;

use crate::error::NetError;
use crate::net::{HwAddr, NetworkDevice};
use crate::wire::{be16, be16_bytes, lemma_be16_of_bytes, lemma_bytes_of_be16, push_bytes, push_u16, slice_to_u16};

verus! {

/// Length of the header: destination, source, ethertype.
pub const ETH_HEADER_LEN: usize = 14;

/// Largest ethertype value that is a payload length rather than a protocol.
pub const ETH_MAX_PAYLOAD: u16 = 1500;

/// Length of a hardware address.
pub const ETH_ALEN: usize = 6;

/// The bytes carried by a frame after its header.
#[derive(Debug)]
pub struct EthernetPayload {
    payload: Vec<u8>,
}

impl View for EthernetPayload {
    type V = Seq<u8>;

    closed spec fn view(&self) -> Seq<u8> {
        self.payload@
    }
}

impl EthernetPayload {
    /// Takes ownership of `payload`.
    pub fn new(payload: Vec<u8>) -> (r: EthernetPayload)
        ensures
            r@ == payload@,
    {
        EthernetPayload { payload: payload }
    }

    pub fn as_vec(&self) -> (r: &Vec<u8>)
        ensures
            r@ == self@,
    {
        &self.payload
    }
}

/// What a frame holds, with its payload as a sequence of bytes.
pub struct EthernetFrameView {
    pub dest_mac: Seq<u8>,
    pub source_mac: Seq<u8>,
    pub ethertype: u16,
    pub payload: Seq<u8>,
}

impl EthernetFrameView {
    /// The frame on the wire: destination, source, big-endian ethertype, payload.
    pub open spec fn wire(self) -> Seq<u8> {
        self.dest_mac + self.source_mac + be16_bytes(self.ethertype) + self.payload
    }
}

/// The frame that the bytes `b` (at least a header's worth) hold.
pub open spec fn frame_of(b: Seq<u8>) -> EthernetFrameView
    recommends
        b.len() >= ETH_HEADER_LEN,
{
    EthernetFrameView {
        dest_mac: b.subrange(0, 6),
        source_mac: b.subrange(6, 12),
        ethertype: be16(b[12], b[13]),
        payload: b.subrange(14, b.len() as int),
    }
}

/// Encoding a decoded frame gives back the bytes it was decoded from.
pub proof fn lemma_frame_encode_decode(b: Seq<u8>)
    requires
        b.len() >= ETH_HEADER_LEN,
    ensures
        frame_of(b).wire() == b,
{
    lemma_bytes_of_be16(b[12], b[13]);
    assert(frame_of(b).wire() =~= b);
}

/// Decoding an encoded frame with 6-byte addresses gives back the frame.
pub proof fn lemma_frame_decode_encode(f: EthernetFrameView)
    requires
        f.dest_mac.len() == ETH_ALEN,
        f.source_mac.len() == ETH_ALEN,
    ensures
        f.wire().len() >= ETH_HEADER_LEN,
        frame_of(f.wire()) == f,
{
    lemma_be16_of_bytes(f.ethertype);
    let g = frame_of(f.wire());
    assert(g.dest_mac =~= f.dest_mac);
    assert(g.source_mac =~= f.source_mac);
    assert(g.payload =~= f.payload);
}

/// A link-layer frame, without VLAN tag or checksum.
#[derive(Debug)]
pub struct EthernetFrame {
    pub dest_mac: HwAddr,
    pub source_mac: HwAddr,
    pub ethertype: u16,
    pub payload: EthernetPayload,
}

impl View for EthernetFrame {
    type V = EthernetFrameView;

    open spec fn view(&self) -> EthernetFrameView {
        EthernetFrameView {
            dest_mac: self.dest_mac@,
            source_mac: self.source_mac@,
            ethertype: self.ethertype,
            payload: self.payload@,
        }
    }
}

impl EthernetFrame {
    /// Serializes the frame: destination, source, big-endian ethertype, payload.
    pub fn to_vec(&self) -> (r: Vec<u8>)
        ensures
            r@ == self@.wire(),
    {
        let mut f: Vec<u8> = Vec::new();
        push_bytes(&mut f, &self.dest_mac);
        push_bytes(&mut f, &self.source_mac);
        push_u16(&mut f, self.ethertype);
        push_bytes(&mut f, self.payload.as_vec().as_slice());
        f
    }

    /// Decodes the frame that `raw` holds; the payload is copied out of `raw`.
    pub fn decode(raw: &[u8]) -> (r: Result<EthernetFrame, NetError>)
        ensures
            match r {
                Ok(f) => raw@.len() >= ETH_HEADER_LEN && f@ == frame_of(raw@),
                Err(e) => raw@.len() < ETH_HEADER_LEN && e == NetError::FrameTooShort(raw@.len() as usize),
            },
    {
        broadcast use vstd::array::group_array_axioms;

        if raw.len() < ETH_HEADER_LEN {
            return Err(NetError::FrameTooShort(raw.len()));
        }
        let mut dest_mac: HwAddr = [0; 6];
        let mut source_mac: HwAddr = [0; 6];
        let mut i: usize = 0;
        while i < ETH_ALEN
            invariant
                raw@.len() >= ETH_HEADER_LEN,
                i <= ETH_ALEN,
                forall|j: int| 0 <= j < i ==> dest_mac@[j] == raw@[j],
                forall|j: int| 0 <= j < i ==> source_mac@[j] == raw@[j + 6],
            decreases ETH_ALEN - i,
        {
            dest_mac[i] = raw[i];
            source_mac[i] = raw[i + ETH_ALEN];
            i = i + 1;
        }
        let ethertype = slice_to_u16(&raw[12..14]);
        let mut payload: Vec<u8> = Vec::new();
        push_bytes(&mut payload, &raw[14..raw.len()]);
        let frame = EthernetFrame {
            dest_mac: dest_mac,
            source_mac: source_mac,
            ethertype: ethertype,
            payload: EthernetPayload::new(payload),
        };
        assert(frame@.dest_mac =~= raw@.subrange(0, 6));
        assert(frame@.source_mac =~= raw@.subrange(6, 12));
        assert(frame@.payload =~= raw@.subrange(14, raw@.len() as int));
        Ok(frame)
    }
}

/// A protocol handler: it serves one ethertype and may answer a frame with a payload.
pub trait HandleFrame: Sized {
    /// The ethertype this handler serves.
    spec fn protocol(&self) -> u16;

    /// Handing `frame` to the handler in state `self` may leave it in state
    /// `next` with the outcome `out`: an error, no answer, or the answer's payload.
    spec fn handles(
        &self,
        frame: EthernetFrameView,
        next: Self,
        out: Result<Option<Seq<u8>>, NetError>,
    ) -> bool;

    /// Handles one frame of this handler's ethertype; `Ok(Some(p))` asks for
    /// `p` to be sent back to the frame's sender.
    fn handle_frame(&mut self, frame: &EthernetFrame) -> (r: Result<Option<EthernetPayload>, NetError>)
        ensures
            old(self).handles(frame@, *final(self), payload_view(r)),
            final(self).protocol() == old(self).protocol(),
    ;

    /// The ethertype under which the handler is registered.
    fn ethertype(&self) -> (r: u16)
        ensures
            r == self.protocol(),
    ;
}

/// The outcome of a handler, with the payload as bytes.
pub open spec fn payload_view(r: Result<Option<EthernetPayload>, NetError>) -> Result<
    Option<Seq<u8>>,
    NetError,
> {
    match r {
        Ok(Some(p)) => Ok(Some(p@)),
        Ok(None) => Ok(None),
        Err(e) => Err(e),
    }
}

/// The frame that carries a handler's answer `payload` to frame `f` back to
/// its sender, from hardware address `hw`.
pub open spec fn reply_frame(f: EthernetFrameView, hw: HwAddr, payload: Seq<u8>) -> EthernetFrameView {
    EthernetFrameView {
        dest_mac: f.source_mac,
        source_mac: hw@,
        ethertype: f.ethertype,
        payload: payload,
    }
}

/// What the link is handed for a handler's outcome `out` on frame `f`.
pub open spec fn link_output(
    f: EthernetFrameView,
    hw: HwAddr,
    out: Result<Option<Seq<u8>>, NetError>,
) -> Result<Option<Seq<u8>>, NetError> {
    match out {
        Ok(Some(p)) => Ok(Some(reply_frame(f, hw, p).wire())),
        Ok(None) => Ok(None),
        Err(e) => Err(e),
    }
}

/// A dispatch result, with the bytes to write as a sequence.
pub open spec fn output_view(r: Result<Option<Vec<u8>>, NetError>) -> Result<
    Option<Seq<u8>>,
    NetError,
> {
    match r {
        Ok(Some(v)) => Ok(Some(v@)),
        Ok(None) => Ok(None),
        Err(e) => Err(e),
    }
}

/// The dispatcher: routes each frame to the handler registered for its ethertype.
#[verifier::reject_recursive_types(H)]
pub struct Ethernet<H: HandleFrame> {
    net_dev: NetworkDevice,
    handlers: HashMap<u16, H>,
}

impl<H: HandleFrame> Ethernet<H> {
    /// This node's identity.
    pub closed spec fn device(&self) -> NetworkDevice {
        self.net_dev
    }

    /// The registry, from ethertype to handler.
    pub closed spec fn handlers(&self) -> Map<u16, H> {
        self.handlers@
    }

    /// A dispatcher for node `net_dev` with no handler registered.
    pub fn new(net_dev: &NetworkDevice) -> (r: Ethernet<H>)
        ensures
            r.device() == *net_dev,
            r.handlers() == Map::<u16, H>::empty(),
    {
        Ethernet { net_dev: *net_dev, handlers: HashMap::new() }
    }

    /// Registers `handler` under the ethertype it reports; a later registration
    /// for the same ethertype replaces an earlier one.
    pub fn register_handler(&mut self, handler: H)
        ensures
            final(self).device() == old(self).device(),
            final(self).handlers() == old(self).handlers().insert(handler.protocol(), handler),
    {
        broadcast use vstd::std_specs::hash::group_hash_axioms;

        let t = handler.ethertype();
        self.handlers.insert(t, handler);
    }

    /// Handles one frame read from the link: decodes it, routes it by
    /// ethertype and returns the reply frame to write, if the handler answered.
    pub fn handle_frame(&mut self, raw: &[u8]) -> (r: Result<Option<Vec<u8>>, NetError>)
        ensures
            final(self).device() == old(self).device(),
            raw@.len() < ETH_HEADER_LEN ==> {
                &&& r == Err::<Option<Vec<u8>>, NetError>(NetError::FrameTooShort(raw@.len() as usize))
                &&& final(self).handlers() == old(self).handlers()
            },
            raw@.len() >= ETH_HEADER_LEN ==> {
                let f = frame_of(raw@);
                let et = f.ethertype;
                if et <= ETH_MAX_PAYLOAD {
                    &&& r == Err::<Option<Vec<u8>>, NetError>(NetError::LengthFramed(et))
                    &&& final(self).handlers() == old(self).handlers()
                } else if !old(self).handlers().contains_key(et) {
                    &&& r == Err::<Option<Vec<u8>>, NetError>(NetError::UnknownEtherType(et))
                    &&& final(self).handlers() == old(self).handlers()
                } else {
                    let next = final(self).handlers()[et];
                    &&& final(self).handlers() == old(self).handlers().insert(et, next)
                    &&& exists|out: Result<Option<Seq<u8>>, NetError>|
                        {
                            &&& #[trigger] old(self).handlers()[et].handles(f, next, out)
                            &&& output_view(r) == link_output(f, old(self).device().hw, out)
                        }
                }
            },
    {
        broadcast use vstd::std_specs::hash::group_hash_axioms;

        let frame = match EthernetFrame::decode(raw) {
            Ok(f) => f,
            Err(e) => return Err(e),
        };
        let et = frame.ethertype;
        if et <= ETH_MAX_PAYLOAD {
            return Err(NetError::LengthFramed(et));
        }
        let mut handler = match self.handlers.remove(&et) {
            Some(h) => h,
            None => {
                assert(self.handlers@ =~= old(self).handlers@);
                return Err(NetError::UnknownEtherType(et));
            },
        };
        let out = handler.handle_frame(&frame);
        self.handlers.insert(et, handler);
        assert(self.handlers@ =~= old(self).handlers@.insert(et, handler));
        match out {
            Ok(Some(payload)) => {
                let reply = EthernetFrame {
                    dest_mac: frame.source_mac,
                    source_mac: self.net_dev.hw,
                    ethertype: et,
                    payload: payload,
                };
                Ok(Some(reply.to_vec()))
            },
            Ok(None) => Ok(None),
            Err(e) => Err(e),
        }
    }
}

} // verus!
