//! The bounded payload of a protocol message.
use crate::bounded::{empty_packet_buffer, extend_packet_buffer, packet_buffer_slice, packet_bytes};
use crate::native::cec_datapacket;
use arrayvec::ArrayVec;
use vstd::prelude::*;

verus! {

/// A message payload of at most 64 bytes.
#[derive(Debug, Clone, PartialEq, Eq)]
pub struct CecDatapacket(pub ArrayVec<u8, 64>);

/// Why a payload could not be made into a packet.
#[derive(Debug, Copy, Clone, PartialEq, Eq, Structural)]
pub enum TryFromCecDatapacketError {
    /// More bytes were given than a packet holds.
    PayloadTooLarge,
    /// A native packet claims more bytes than its buffer has.
    InvalidPayloadSize,
}

impl View for CecDatapacket {
    type V = Seq<u8>;

    open spec fn view(&self) -> Seq<u8> {
        packet_bytes(self.0)
    }
}

/// The payload that a native packet carries: the first `size` bytes of its
/// buffer, when `size` lies within the buffer.
pub open spec fn native_payload(n: cec_datapacket) -> Option<Seq<u8>> {
    if n.size <= 64 {
        Some(n.data@.subrange(0, n.size as int))
    } else {
        None
    }
}

/// Whether `n` is the native form of payload `p`: its size is the length of `p`
/// and its buffer holds `p` followed by zeros.
pub open spec fn encodes_payload(p: Seq<u8>, n: cec_datapacket) -> bool {
    &&& n.size as int == p.len()
    &&& n.data@ == p + Seq::new((64 - p.len()) as nat, |i: int| 0u8)
}

/// A payload of at most 64 bytes survives encoding and decoding unchanged.
pub proof fn lemma_payload_round_trip(p: Seq<u8>, n: cec_datapacket)
    requires
        p.len() <= 64,
        encodes_payload(p, n),
    ensures
        native_payload(n) == Some(p),
{
    assert(n.data@.subrange(0, n.size as int) =~= p);
}

impl CecDatapacket {
    /// A packet holding `bytes`; fails with `PayloadTooLarge`, and truncates
    /// nothing, when there are more than 64 of them.
    pub fn try_from_slice(bytes: &[u8]) -> (r: Result<CecDatapacket, TryFromCecDatapacketError>)
        ensures
            match r {
                Ok(p) => bytes@.len() <= 64 && p@ == bytes@,
                Err(e) => bytes@.len() > 64 && e == TryFromCecDatapacketError::PayloadTooLarge,
            },
    {
        let mut buf = empty_packet_buffer();
        if extend_packet_buffer(&mut buf, bytes) {
            Ok(CecDatapacket(buf))
        } else {
            Err(TryFromCecDatapacketError::PayloadTooLarge)
        }
    }

    /// The payload bytes of this packet.
    pub fn as_bytes(&self) -> (r: &[u8])
        ensures
            r@ == self@,
            r@.len() <= 64,
    {
        packet_buffer_slice(&self.0)
    }

    /// The native form of this packet: the payload at the start of a zeroed buffer.
    pub fn to_native(&self) -> (r: cec_datapacket)
        ensures
            encodes_payload(self@, r),
    {
        let bytes = packet_buffer_slice(&self.0);
        let mut data = [0u8; 64];
        let mut i: usize = 0;
        while i < bytes.len()
            invariant
                bytes@ == self@,
                bytes@.len() <= 64,
                i <= bytes@.len(),
                data@.len() == 64,
                forall|j: int| 0 <= j < i ==> data@[j] == bytes@[j],
                forall|j: int| i <= j < 64 ==> data@[j] == 0,
            decreases bytes@.len() - i,
        {
            data[i] = bytes[i];
            i += 1;
        }
        let r = cec_datapacket { data, size: bytes.len() as u8 };
        assert(r.data@ =~= self@ + Seq::new((64 - self@.len()) as nat, |i: int| 0u8));
        r
    }

    /// The packet that a native packet carries; fails with `InvalidPayloadSize`
    /// when its size exceeds its buffer.
    pub fn from_native(n: &cec_datapacket) -> (r: Result<CecDatapacket, TryFromCecDatapacketError>)
        ensures
            match r {
                Ok(p) => native_payload(*n) == Some(p@),
                Err(e) => native_payload(*n) is None
                    && e == TryFromCecDatapacketError::InvalidPayloadSize,
            },
    {
        if n.size > 64 {
            return Err(TryFromCecDatapacketError::InvalidPayloadSize);
        }
        let end = n.size as usize;
        let mut payload: Vec<u8> = Vec::new();
        let mut i: usize = 0;
        while i < end
            invariant
                end <= 64,
                i <= end,
                payload@ == n.data@.subrange(0, i as int),
            decreases end - i,
        {
            payload.push(n.data[i]);
            i += 1;
        }
        let mut buf = empty_packet_buffer();
        let ok = extend_packet_buffer(&mut buf, payload.as_slice());
        assert(ok);
        Ok(CecDatapacket(buf))
    }
}

} // verus!
