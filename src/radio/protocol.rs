//! Packets as they travel over the radio: an eight-byte header followed by a
//! fixed-size payload.
use vstd::prelude::*;

use crate::flags::{flag, with_flag};

verus! {

/// Maximum size of the packet payload in bytes.
pub const MAX_PAYLOAD_SIZE: usize = 32;

/// Size of the encoded header in bytes.
pub const HEADER_SIZE: usize = 8;

/// Total packet size in bytes (header + payload).
pub const PACKET_SIZE_BYTES: usize = HEADER_SIZE + MAX_PAYLOAD_SIZE;

const ACK_REQUEST_BIT: u8 = 1;
const ACK_RESPONSE_BIT: u8 = 2;
const EMERGENCY_BIT: u8 = 4;
const RETRANSMIT_BIT: u8 = 8;

/// Control flags of a packet, packed into one byte: acknowledgement request,
/// acknowledgement response, emergency and retransmission, from the lowest
/// bit up; the four high bits are reserved.
#[derive(Debug, Clone, Copy, PartialEq, Eq, Structural)]
pub struct PacketControl {
    bits: u8,
}

impl PacketControl {
    /// The packed byte.
    pub closed spec fn bits_spec(&self) -> u8 {
        self.bits
    }

    /// Whether an acknowledgement is requested.
    pub open spec fn ack_request_spec(&self) -> bool {
        flag(self.bits_spec(), 1)
    }

    /// Whether this is an acknowledgement.
    pub open spec fn ack_response_spec(&self) -> bool {
        flag(self.bits_spec(), 2)
    }

    /// Whether this packet has priority.
    pub open spec fn emergency_spec(&self) -> bool {
        flag(self.bits_spec(), 4)
    }

    /// Whether this packet is sent again.
    pub open spec fn retransmit_spec(&self) -> bool {
        flag(self.bits_spec(), 8)
    }

    /// The reserved high bits.
    pub open spec fn reserved_spec(&self) -> u8 {
        self.bits_spec() & 0xf0
    }

    /// Control flags with every bit clear.
    pub fn new() -> (r: PacketControl)
        ensures
            r.bits_spec() == 0,
            !r.ack_request_spec(),
            !r.ack_response_spec(),
            !r.emergency_spec(),
            !r.retransmit_spec(),
    {
        assert(0u8 & 1 == 0 && 0u8 & 2 == 0 && 0u8 & 4 == 0 && 0u8 & 8 == 0) by (bit_vector);
        PacketControl { bits: 0 }
    }

    /// Control flags packed in `bits`, reserved bits included.
    pub fn from_bits(bits: u8) -> (r: PacketControl)
        ensures
            r.bits_spec() == bits,
    {
        PacketControl { bits }
    }

    /// The packed byte.
    pub fn into_bits(&self) -> (r: u8)
        ensures
            r == self.bits_spec(),
    {
        self.bits
    }

    fn set_bit(&mut self, mask: u8, value: bool)
        requires
            mask == 1 || mask == 2 || mask == 4 || mask == 8,
        ensures
            flag(final(self).bits, mask) == value,
            mask != 1 ==> final(self).bits & 1 == old(self).bits & 1,
            mask != 2 ==> final(self).bits & 2 == old(self).bits & 2,
            mask != 4 ==> final(self).bits & 4 == old(self).bits & 4,
            mask != 8 ==> final(self).bits & 8 == old(self).bits & 8,
            final(self).bits & 0xf0 == old(self).bits & 0xf0,
    {
        self.bits = with_flag(self.bits, mask, value);
    }

    /// Sets or clears the acknowledgement request flag.
    pub fn set_ack_request(&mut self, value: bool)
        ensures
            final(self).ack_request_spec() == value,
            final(self).ack_response_spec() == old(self).ack_response_spec(),
            final(self).emergency_spec() == old(self).emergency_spec(),
            final(self).retransmit_spec() == old(self).retransmit_spec(),
            final(self).reserved_spec() == old(self).reserved_spec(),
    {
        self.set_bit(ACK_REQUEST_BIT, value);
    }

    /// Sets or clears the acknowledgement response flag.
    pub fn set_ack_response(&mut self, value: bool)
        ensures
            final(self).ack_response_spec() == value,
            final(self).ack_request_spec() == old(self).ack_request_spec(),
            final(self).emergency_spec() == old(self).emergency_spec(),
            final(self).retransmit_spec() == old(self).retransmit_spec(),
            final(self).reserved_spec() == old(self).reserved_spec(),
    {
        self.set_bit(ACK_RESPONSE_BIT, value);
    }

    /// Sets or clears the emergency flag.
    pub fn set_emergency(&mut self, value: bool)
        ensures
            final(self).emergency_spec() == value,
            final(self).ack_request_spec() == old(self).ack_request_spec(),
            final(self).ack_response_spec() == old(self).ack_response_spec(),
            final(self).retransmit_spec() == old(self).retransmit_spec(),
            final(self).reserved_spec() == old(self).reserved_spec(),
    {
        self.set_bit(EMERGENCY_BIT, value);
    }

    /// Sets or clears the retransmission flag.
    pub fn set_retransmit(&mut self, value: bool)
        ensures
            final(self).retransmit_spec() == value,
            final(self).ack_request_spec() == old(self).ack_request_spec(),
            final(self).ack_response_spec() == old(self).ack_response_spec(),
            final(self).emergency_spec() == old(self).emergency_spec(),
            final(self).reserved_spec() == old(self).reserved_spec(),
    {
        self.set_bit(RETRANSMIT_BIT, value);
    }

    /// Check if acknowledgment is requested.
    pub fn is_ack_request(&self) -> (r: bool)
        ensures
            r == self.ack_request_spec(),
    {
        self.bits & ACK_REQUEST_BIT != 0
    }

    /// Check if this is an acknowledgment response.
    pub fn is_ack(&self) -> (r: bool)
        ensures
            r == self.ack_response_spec(),
    {
        self.bits & ACK_RESPONSE_BIT != 0
    }

    /// Check if this is an emergency packet.
    pub fn is_emergency(&self) -> (r: bool)
        ensures
            r == self.emergency_spec(),
    {
        self.bits & EMERGENCY_BIT != 0
    }

    /// Check if this is a retransmitted packet.
    pub fn is_retransmit(&self) -> (r: bool)
        ensures
            r == self.retransmit_spec(),
    {
        self.bits & RETRANSMIT_BIT != 0
    }
}

/// The two bytes of `v`, low byte first.
pub open spec fn u16_le(v: u16) -> Seq<u8> {
    seq![(v % 256) as u8, (v / 256) as u8]
}

/// The value of two bytes, low byte first.
pub open spec fn u16_from_le(lo: u8, hi: u8) -> u16 {
    (lo as int + 256 * hi as int) as u16
}

/// Packet header containing routing and control information.
#[derive(Debug, Clone, Copy, PartialEq, Eq, Structural)]
pub struct Header {
    /// Unique identifier of the sender node.
    pub sender_id: u16,
    /// Target node identifier (0 for broadcast).
    pub target_id: u16,
    /// Sequence number for packet ordering and duplicate detection.
    pub sequence_number: u16,
    /// Control flags and packet type information.
    pub control: PacketControl,
    /// Length of the actual payload data.
    pub payload_len: u8,
}

/// The encoded header: the three identifiers low byte first, then the
/// control byte and the payload length.
pub open spec fn header_bytes(h: Header) -> Seq<u8> {
    u16_le(h.sender_id) + u16_le(h.target_id) + u16_le(h.sequence_number) + seq![
        h.control.bits_spec(),
        h.payload_len,
    ]
}

/// The encoded packet: the header, then the whole payload array.
pub open spec fn packet_bytes(p: Packet) -> Seq<u8> {
    header_bytes(p.header) + p.payload@
}

/// Whether `p` is the packet that the bytes `b` encode.
pub open spec fn decodes_to(b: Seq<u8>, p: Packet) -> bool {
    &&& b.len() == PACKET_SIZE_BYTES
    &&& p.header.sender_id == u16_from_le(b[0], b[1])
    &&& p.header.target_id == u16_from_le(b[2], b[3])
    &&& p.header.sequence_number == u16_from_le(b[4], b[5])
    &&& p.header.control.bits_spec() == b[6]
    &&& p.header.payload_len == b[7]
    &&& p.payload@ == b.subrange(HEADER_SIZE as int, PACKET_SIZE_BYTES as int)
}

/// The smaller of a length and the payload capacity.
pub open spec fn clamped_len(len: nat) -> nat {
    if len < MAX_PAYLOAD_SIZE {
        len
    } else {
        MAX_PAYLOAD_SIZE as nat
    }
}

/// Complete radio packet structure.
#[derive(Debug, Clone, Copy, PartialEq, Eq)]
pub struct Packet {
    /// Packet header with routing and control information.
    pub header: Header,
    /// Fixed-size payload array.
    pub payload: [u8; MAX_PAYLOAD_SIZE],
}

impl Packet {
    /// Creates a packet with clear control flags; a payload longer than the
    /// capacity is cut to the first `MAX_PAYLOAD_SIZE` bytes, and the rest
    /// of the payload array is zero.
    pub fn new(sender_id: u16, target_id: u16, sequence_number: u16, payload: &[u8]) -> (r: Packet)
        ensures
            r.header.sender_id == sender_id,
            r.header.target_id == target_id,
            r.header.sequence_number == sequence_number,
            r.header.control.bits_spec() == 0,
            r.header.payload_len == clamped_len(payload@.len()),
            r.payload@ == payload@.subrange(0, clamped_len(payload@.len()) as int) + Seq::new(
                (MAX_PAYLOAD_SIZE - clamped_len(payload@.len())) as nat,
                |i: int| 0u8,
            ),
    {
        let copy_len: usize = if payload.len() < MAX_PAYLOAD_SIZE {
            payload.len()
        } else {
            MAX_PAYLOAD_SIZE
        };
        let mut data = [0u8; MAX_PAYLOAD_SIZE];
        let mut i: usize = 0;
        while i < copy_len
            invariant
                copy_len == clamped_len(payload@.len()),
                i <= copy_len,
                data@.len() == MAX_PAYLOAD_SIZE,
                forall|k: int| 0 <= k < i ==> data@[k] == payload@[k],
                forall|k: int| i <= k < MAX_PAYLOAD_SIZE ==> data@[k] == 0u8,
            decreases copy_len - i,
        {
            data[i] = payload[i];
            i = i + 1;
        }
        assert(data@ =~= payload@.subrange(0, copy_len as int) + Seq::new(
            (MAX_PAYLOAD_SIZE - copy_len) as nat,
            |i: int| 0u8,
        ));
        Packet {
            header: Header {
                sender_id,
                target_id,
                sequence_number,
                control: PacketControl::new(),
                payload_len: copy_len as u8,
            },
            payload: data,
        }
    }

    /// The payload bytes in use, without the padding.
    pub fn payload_data(&self) -> (r: &[u8])
        requires
            self.header.payload_len <= MAX_PAYLOAD_SIZE,
        ensures
            r@ == self.payload@.subrange(0, self.header.payload_len as int),
    {
        let len = self.header.payload_len as usize;
        vstd::slice::slice_subrange(self.payload.as_slice(), 0, len)
    }

    /// Encodes the packet for transmission.
    pub fn to_bytes(&self) -> (r: [u8; PACKET_SIZE_BYTES])
        ensures
            r@ == packet_bytes(*self),
    {
        let mut bytes = [0u8; PACKET_SIZE_BYTES];
        let h = self.header;
        bytes[0] = (h.sender_id % 256) as u8;
        bytes[1] = (h.sender_id / 256) as u8;
        bytes[2] = (h.target_id % 256) as u8;
        bytes[3] = (h.target_id / 256) as u8;
        bytes[4] = (h.sequence_number % 256) as u8;
        bytes[5] = (h.sequence_number / 256) as u8;
        bytes[6] = h.control.into_bits();
        bytes[7] = h.payload_len;
        let mut i: usize = 0;
        while i < MAX_PAYLOAD_SIZE
            invariant
                i <= MAX_PAYLOAD_SIZE,
                bytes@.len() == PACKET_SIZE_BYTES,
                forall|k: int| 0 <= k < HEADER_SIZE ==> bytes@[k] == header_bytes(h)[k],
                forall|k: int| 0 <= k < i ==> bytes@[HEADER_SIZE + k] == self.payload@[k],
            decreases MAX_PAYLOAD_SIZE - i,
        {
            bytes[HEADER_SIZE + i] = self.payload[i];
            i = i + 1;
        }
        assert(bytes@ =~= packet_bytes(*self));
        bytes
    }

    /// Decodes a packet received from the radio.
    pub fn from_bytes(bytes: &[u8; PACKET_SIZE_BYTES]) -> (r: Packet)
        ensures
            decodes_to(bytes@, r),
    {
        let mut payload = [0u8; MAX_PAYLOAD_SIZE];
        let mut i: usize = 0;
        while i < MAX_PAYLOAD_SIZE
            invariant
                i <= MAX_PAYLOAD_SIZE,
                payload@.len() == MAX_PAYLOAD_SIZE,
                bytes@.len() == PACKET_SIZE_BYTES,
                forall|k: int| 0 <= k < i ==> payload@[k] == bytes@[HEADER_SIZE + k],
            decreases MAX_PAYLOAD_SIZE - i,
        {
            payload[i] = bytes[HEADER_SIZE + i];
            i = i + 1;
        }
        assert(payload@ =~= bytes@.subrange(HEADER_SIZE as int, PACKET_SIZE_BYTES as int));
        let header = Header {
            sender_id: bytes[0] as u16 + 256 * (bytes[1] as u16),
            target_id: bytes[2] as u16 + 256 * (bytes[3] as u16),
            sequence_number: bytes[4] as u16 + 256 * (bytes[5] as u16),
            control: PacketControl::from_bits(bytes[6]),
            payload_len: bytes[7],
        };
        Packet { header, payload }
    }
}

/// Encoding a packet and decoding the bytes gives the packet back: the
/// bytes decode to `p`, and to nothing else.
pub proof fn lemma_packet_round_trip(p: Packet, q: Packet)
    requires
        decodes_to(packet_bytes(p), q),
    ensures
        decodes_to(packet_bytes(p), p),
        q == p,
{
    let b = packet_bytes(p);
    assert(b.subrange(HEADER_SIZE as int, PACKET_SIZE_BYTES as int) =~= p.payload@);
    assert(q.payload =~= p.payload);
}

} // verus!
