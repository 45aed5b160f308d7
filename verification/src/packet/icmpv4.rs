use vstd::prelude::*;
use vstd::slice::slice_subrange;
use crate::checksum::{checksum_without_field, internet_checksum};
use crate::error::Error;
use crate::types::{PayloadPattern, Sequence, TraceId};
use crate::wire::{
    be16, filled, push_filled, read_be16, u16_at, with_bytes_at, with_u16_at, write_all,
    write_be16, zeroed_at, zeros,
};

verus! {

/// The length of the header of an ICMPv4 message.
pub const ICMP_HEADER_SIZE: usize = 8;

/// The length to which the embedded datagram is padded where extensions follow it.
pub const ICMP_ORIG_DATAGRAM_MIN_LENGTH: usize = 128;

/// The longest payload of an echo probe: what a packet of 1024 bytes leaves behind the IPv4
/// and ICMP headers.
pub const MAX_ICMP_PAYLOAD: usize = 996;

/// The length of the header of the extension structure.
pub const ICMP_EXTENSION_HEADER_SIZE: usize = 4;

/// The type of an ICMPv4 message.
#[derive(Debug, Clone, Copy, PartialEq, Eq, Structural)]
pub enum IcmpType {
    EchoReply,
    DestinationUnreachable,
    EchoRequest,
    TimeExceeded,
    Other(u8),
}

impl IcmpType {
    /// The type's number in the ICMPv4 header.
    pub open spec fn spec_id(self) -> u8 {
        match self {
            IcmpType::EchoReply => 0,
            IcmpType::DestinationUnreachable => 3,
            IcmpType::EchoRequest => 8,
            IcmpType::TimeExceeded => 11,
            IcmpType::Other(id) => id,
        }
    }

    /// The type with the number `id`.
    pub open spec fn spec_from_id(id: u8) -> IcmpType {
        if id == 0 {
            IcmpType::EchoReply
        } else if id == 3 {
            IcmpType::DestinationUnreachable
        } else if id == 8 {
            IcmpType::EchoRequest
        } else if id == 11 {
            IcmpType::TimeExceeded
        } else {
            IcmpType::Other(id)
        }
    }

    /// The type's number in the ICMPv4 header.
    pub fn id(self) -> (r: u8)
        ensures
            r == self.spec_id(),
    {
        match self {
            IcmpType::EchoReply => 0,
            IcmpType::DestinationUnreachable => 3,
            IcmpType::EchoRequest => 8,
            IcmpType::TimeExceeded => 11,
            IcmpType::Other(id) => id,
        }
    }

    /// The type with the number `id`.
    pub fn from_id(id: u8) -> (r: IcmpType)
        ensures
            r == IcmpType::spec_from_id(id),
            r.spec_id() == id,
    {
        if id == 0 {
            IcmpType::EchoReply
        } else if id == 3 {
            IcmpType::DestinationUnreachable
        } else if id == 8 {
            IcmpType::EchoRequest
        } else if id == 11 {
            IcmpType::TimeExceeded
        } else {
            IcmpType::Other(id)
        }
    }
}

/// The code of an ICMPv4 message.
#[derive(Debug, Clone, Copy, PartialEq, Eq, Structural)]
pub struct IcmpCode(pub u8);

/// What the code of a time-exceeded message says.
#[derive(Debug, Clone, Copy, PartialEq, Eq, Structural)]
pub enum IcmpTimeExceededCode {
    /// The hop limit ran out in transit.
    TtlExpired,
    /// The time to reassemble fragments ran out.
    FragmentReassembly,
    /// Any other code.
    Unknown(u8),
}

impl IcmpTimeExceededCode {
    /// What the code `code` says.
    pub open spec fn spec_from_code(code: IcmpCode) -> IcmpTimeExceededCode {
        if code.0 == 0 {
            IcmpTimeExceededCode::TtlExpired
        } else if code.0 == 1 {
            IcmpTimeExceededCode::FragmentReassembly
        } else {
            IcmpTimeExceededCode::Unknown(code.0)
        }
    }

    /// What the code `code` says.
    pub fn from_code(code: IcmpCode) -> (r: IcmpTimeExceededCode)
        ensures
            r == IcmpTimeExceededCode::spec_from_code(code),
    {
        if code.0 == 0 {
            IcmpTimeExceededCode::TtlExpired
        } else if code.0 == 1 {
            IcmpTimeExceededCode::FragmentReassembly
        } else {
            IcmpTimeExceededCode::Unknown(code.0)
        }
    }
}

/// The eight header bytes of an echo request.
pub open spec fn echo_request_header(checksum: u16, identifier: u16, sequence: u16) -> Seq<u8> {
    seq![8u8, 0u8] + be16(checksum) + be16(identifier) + be16(sequence)
}

/// The bytes of an echo request with its checksum filled in.
pub open spec fn echo_request_packet(identifier: u16, sequence: u16, payload: Seq<u8>) -> Seq<
    u8,
> {
    echo_request_header(
        internet_checksum(echo_request_header(0, identifier, sequence) + payload),
        identifier,
        sequence,
    ) + payload
}

/// Builds an echo request whose payload is `payload_size` bytes of `payload_pattern`.
pub fn make_echo_request_icmp_packet(
    identifier: TraceId,
    sequence: Sequence,
    payload_size: usize,
    payload_pattern: PayloadPattern,
) -> (r: Result<MutableEchoRequestPacket, Error>)
    requires
        payload_size <= MAX_ICMP_PAYLOAD,
    ensures
        r is Ok,
        r->Ok_0.wf(),
        r->Ok_0.bytes() == echo_request_packet(
            identifier.0,
            sequence.0,
            filled(payload_pattern.0, payload_size),
        ),
{
    let mut payload_buf: Vec<u8> = Vec::new();
    push_filled(&mut payload_buf, payload_pattern.0, payload_size);
    let packet_size = ICMP_HEADER_SIZE + payload_size;
    let mut icmp = MutableEchoRequestPacket::new(zeros(packet_size))?;
    icmp.set_icmp_type(IcmpType::EchoRequest);
    icmp.set_icmp_code(IcmpCode(0));
    icmp.set_identifier(identifier.0);
    icmp.set_payload(payload_buf.as_slice());
    icmp.set_sequence(sequence.0);
    let ghost unsummed = icmp.bytes();
    assert(unsummed =~= echo_request_header(0, identifier.0, sequence.0) + filled(
        payload_pattern.0,
        payload_size,
    ));
    assert(zeroed_at(unsummed, 2) =~= unsummed);
    let sum = checksum_without_field(icmp.packet(), 2);
    icmp.set_checksum(sum);
    assert(icmp.bytes() =~= echo_request_packet(
        identifier.0,
        sequence.0,
        filled(payload_pattern.0, payload_size),
    ));
    Ok(icmp)
}

/// The bytes of an echo request under construction, which are at least a header's worth.
pub struct MutableEchoRequestPacket {
    buf: Vec<u8>,
}

impl MutableEchoRequestPacket {
    /// The bytes of the message.
    pub closed spec fn bytes(&self) -> Seq<u8> {
        self.buf@
    }

    /// Whether the message has room for its header, as every message made by `new` has and
    /// keeps.
    pub open spec fn wf(&self) -> bool {
        self.bytes().len() >= ICMP_HEADER_SIZE
    }

    /// Takes `buf` as the bytes of an echo request, unless it is shorter than a header.
    pub fn new(buf: Vec<u8>) -> (r: Result<MutableEchoRequestPacket, Error>)
        ensures
            buf@.len() >= ICMP_HEADER_SIZE ==> r is Ok && r->Ok_0.bytes() == buf@ && r->Ok_0.wf(),
            buf@.len() < ICMP_HEADER_SIZE ==> r == Err::<MutableEchoRequestPacket, Error>(
                Error::PacketTooSmall,
            ),
    {
        if buf.len() >= ICMP_HEADER_SIZE {
            Ok(MutableEchoRequestPacket { buf })
        } else {
            Err(Error::PacketTooSmall)
        }
    }

    /// The bytes of the message.
    pub fn packet(&self) -> (r: &[u8])
        ensures
            r@ == self.bytes(),
    {
        self.buf.as_slice()
    }

    /// Gives the bytes of the message back.
    pub fn into_inner(self) -> (r: Vec<u8>)
        ensures
            r@ == self.bytes(),
    {
        self.buf
    }

    /// Sets the type of the message.
    pub fn set_icmp_type(&mut self, icmp_type: IcmpType)
        requires
            old(self).wf(),
        ensures
            final(self).bytes() == old(self).bytes().update(0, icmp_type.spec_id()),
    {
        self.buf.set(0, icmp_type.id());
    }

    /// Sets the code of the message.
    pub fn set_icmp_code(&mut self, icmp_code: IcmpCode)
        requires
            old(self).wf(),
        ensures
            final(self).bytes() == old(self).bytes().update(1, icmp_code.0),
    {
        self.buf.set(1, icmp_code.0);
    }

    /// Sets the checksum field.
    pub fn set_checksum(&mut self, checksum: u16)
        requires
            old(self).wf(),
        ensures
            final(self).bytes() == with_u16_at(old(self).bytes(), 2, checksum),
    {
        write_be16(&mut self.buf, 2, checksum);
    }

    /// Sets the identifier of the echo.
    pub fn set_identifier(&mut self, identifier: u16)
        requires
            old(self).wf(),
        ensures
            final(self).bytes() == with_u16_at(old(self).bytes(), 4, identifier),
    {
        write_be16(&mut self.buf, 4, identifier);
    }

    /// Sets the sequence number of the echo.
    pub fn set_sequence(&mut self, sequence: u16)
        requires
            old(self).wf(),
        ensures
            final(self).bytes() == with_u16_at(old(self).bytes(), 6, sequence),
    {
        write_be16(&mut self.buf, 6, sequence);
    }

    /// Copies `payload` to the place behind the header.
    pub fn set_payload(&mut self, payload: &[u8])
        requires
            old(self).wf(),
            ICMP_HEADER_SIZE + payload@.len() <= old(self).bytes().len(),
        ensures
            final(self).bytes() == with_bytes_at(old(self).bytes(), 8, payload@),
    {
        write_all(&mut self.buf, ICMP_HEADER_SIZE, payload);
    }
}

/// Whether `ext` starts with a sound extension header: four bytes or more, version 2, and a
/// checksum field that holds the checksum of the whole structure, taken with that field as zero.
pub open spec fn extension_header_valid(ext: Seq<u8>) -> bool {
    &&& ext.len() >= ICMP_EXTENSION_HEADER_SIZE
    &&& ext[0] / 16 == 2
    &&& u16_at(ext, 2) == internet_checksum(zeroed_at(ext, 2))
}

/// Where in the body of an ICMPv4 error message an extension structure would start. A body
/// of 128 bytes or less has none. In a longer one it starts where the length field, which
/// counts 32-bit words, says the embedded datagram ends, if that is at 128 bytes or more and
/// inside the body; where the field is zero, it starts at 128 bytes.
pub open spec fn extension_offset(length_field: u8, body: Seq<u8>) -> Option<int> {
    let declared = length_field as int * 4;
    if body.len() <= ICMP_ORIG_DATAGRAM_MIN_LENGTH {
        None
    } else if declared == 0 {
        Some(ICMP_ORIG_DATAGRAM_MIN_LENGTH as int)
    } else if declared >= ICMP_ORIG_DATAGRAM_MIN_LENGTH && declared < body.len() {
        Some(declared)
    } else {
        None
    }
}

/// The extension structure in the body of an ICMPv4 error message: the bytes from the
/// extension's offset on, if they start with a sound header.
pub open spec fn extension_of(length_field: u8, body: Seq<u8>) -> Option<Seq<u8>> {
    match extension_offset(length_field, body) {
        Some(offset) => if extension_header_valid(body.skip(offset)) {
            Some(body.skip(offset))
        } else {
            None
        },
        None => None,
    }
}

/// The embedded datagram in the body of an ICMPv4 error message: the bytes before the
/// extension structure, or all of the body where there is none.
pub open spec fn embedded_datagram(length_field: u8, body: Seq<u8>) -> Seq<u8> {
    match extension_of(length_field, body) {
        Some(_) => body.take(extension_offset(length_field, body)->Some_0),
        None => body,
    }
}

/// Finds the offset at which a sound extension structure starts in `body`, if there is one.
fn split_offset(length_field: u8, body: &[u8]) -> (r: Option<usize>)
    ensures
        r is Some <==> extension_of(length_field, body@) is Some,
        r is Some ==> extension_offset(length_field, body@) == Some(r->Some_0 as int)
            && r->Some_0 < body@.len(),
{
    let declared: usize = length_field as usize * 4;
    let len = body.len();
    if len <= ICMP_ORIG_DATAGRAM_MIN_LENGTH {
        return None;
    }
    let offset: usize = if declared == 0 {
        ICMP_ORIG_DATAGRAM_MIN_LENGTH
    } else if declared >= ICMP_ORIG_DATAGRAM_MIN_LENGTH && declared < len {
        declared
    } else {
        return None;
    };
    let ext = slice_subrange(body, offset, len);
    if ext.len() < ICMP_EXTENSION_HEADER_SIZE {
        return None;
    }
    if ext[0] / 16 != 2 {
        return None;
    }
    if read_be16(ext, 2) != checksum_without_field(ext, 2) {
        return None;
    }
    Some(offset)
}

/// A read-only view of the bytes of an ICMPv4 message of any type.
pub struct IcmpPacket<'a> {
    buf: &'a [u8],
}

impl<'a> IcmpPacket<'a> {
    #[verifier::type_invariant]
    spec fn long_enough(&self) -> bool {
        self.buf@.len() >= ICMP_HEADER_SIZE
    }

    /// The bytes of the message.
    pub closed spec fn bytes(&self) -> Seq<u8> {
        self.buf@
    }

    /// The least number of bytes that a message has.
    pub fn minimum_packet_size() -> (r: usize)
        ensures
            r == ICMP_HEADER_SIZE,
    {
        ICMP_HEADER_SIZE
    }

    /// Views `buf` as an ICMPv4 message, unless it is shorter than a header.
    pub fn new_view(buf: &'a [u8]) -> (r: Result<IcmpPacket<'a>, Error>)
        ensures
            buf@.len() >= ICMP_HEADER_SIZE ==> r is Ok && r->Ok_0.bytes() == buf@,
            buf@.len() < ICMP_HEADER_SIZE ==> r == Err::<IcmpPacket<'a>, Error>(
                Error::PacketTooSmall,
            ),
    {
        if buf.len() >= ICMP_HEADER_SIZE {
            Ok(IcmpPacket { buf })
        } else {
            Err(Error::PacketTooSmall)
        }
    }

    /// The bytes of the message.
    pub fn packet(&self) -> (r: &'a [u8])
        ensures
            r@ == self.bytes(),
            r@.len() >= ICMP_HEADER_SIZE,
    {
        proof {
            use_type_invariant(self);
        }
        self.buf
    }

    /// The type of the message.
    pub fn get_icmp_type(&self) -> (r: IcmpType)
        ensures
            r == IcmpType::spec_from_id(self.bytes()[0]),
    {
        proof {
            use_type_invariant(self);
        }
        IcmpType::from_id(self.buf[0])
    }

    /// The code of the message.
    pub fn get_icmp_code(&self) -> (r: IcmpCode)
        ensures
            r == IcmpCode(self.bytes()[1]),
    {
        proof {
            use_type_invariant(self);
        }
        IcmpCode(self.buf[1])
    }

    /// The checksum field.
    pub fn get_checksum(&self) -> (r: u16)
        ensures
            r == u16_at(self.bytes(), 2),
    {
        proof {
            use_type_invariant(self);
        }
        read_be16(self.buf, 2)
    }

    /// The bytes behind the header.
    pub fn payload(&self) -> (r: &'a [u8])
        ensures
            r@ == self.bytes().skip(ICMP_HEADER_SIZE as int),
    {
        proof {
            use_type_invariant(self);
        }
        slice_subrange(self.buf, ICMP_HEADER_SIZE, self.buf.len())
    }
}

/// A read-only view of the bytes of an echo request.
pub struct EchoRequestPacket<'a> {
    buf: &'a [u8],
}

impl<'a> EchoRequestPacket<'a> {
    #[verifier::type_invariant]
    spec fn long_enough(&self) -> bool {
        self.buf@.len() >= ICMP_HEADER_SIZE
    }

    /// The bytes of the message.
    pub closed spec fn bytes(&self) -> Seq<u8> {
        self.buf@
    }

    /// Views `buf` as an echo request, unless it is shorter than a header.
    pub fn new_view(buf: &'a [u8]) -> (r: Result<EchoRequestPacket<'a>, Error>)
        ensures
            buf@.len() >= ICMP_HEADER_SIZE ==> r is Ok && r->Ok_0.bytes() == buf@,
            buf@.len() < ICMP_HEADER_SIZE ==> r == Err::<EchoRequestPacket<'a>, Error>(
                Error::PacketTooSmall,
            ),
    {
        if buf.len() >= ICMP_HEADER_SIZE {
            Ok(EchoRequestPacket { buf })
        } else {
            Err(Error::PacketTooSmall)
        }
    }

    /// The identifier of the echo.
    pub fn get_identifier(&self) -> (r: u16)
        ensures
            r == u16_at(self.bytes(), 4),
    {
        proof {
            use_type_invariant(self);
        }
        read_be16(self.buf, 4)
    }

    /// The sequence number of the echo.
    pub fn get_sequence(&self) -> (r: u16)
        ensures
            r == u16_at(self.bytes(), 6),
    {
        proof {
            use_type_invariant(self);
        }
        read_be16(self.buf, 6)
    }

    /// The bytes behind the header.
    pub fn payload(&self) -> (r: &'a [u8])
        ensures
            r@ == self.bytes().skip(ICMP_HEADER_SIZE as int),
    {
        proof {
            use_type_invariant(self);
        }
        slice_subrange(self.buf, ICMP_HEADER_SIZE, self.buf.len())
    }
}

/// A read-only view of the bytes of an echo reply.
pub struct EchoReplyPacket<'a> {
    buf: &'a [u8],
}

impl<'a> EchoReplyPacket<'a> {
    #[verifier::type_invariant]
    spec fn long_enough(&self) -> bool {
        self.buf@.len() >= ICMP_HEADER_SIZE
    }

    /// The bytes of the message.
    pub closed spec fn bytes(&self) -> Seq<u8> {
        self.buf@
    }

    /// Views `buf` as an echo reply, unless it is shorter than a header.
    pub fn new_view(buf: &'a [u8]) -> (r: Result<EchoReplyPacket<'a>, Error>)
        ensures
            buf@.len() >= ICMP_HEADER_SIZE ==> r is Ok && r->Ok_0.bytes() == buf@,
            buf@.len() < ICMP_HEADER_SIZE ==> r == Err::<EchoReplyPacket<'a>, Error>(
                Error::PacketTooSmall,
            ),
    {
        if buf.len() >= ICMP_HEADER_SIZE {
            Ok(EchoReplyPacket { buf })
        } else {
            Err(Error::PacketTooSmall)
        }
    }

    /// The identifier of the echo.
    pub fn get_identifier(&self) -> (r: u16)
        ensures
            r == u16_at(self.bytes(), 4),
    {
        proof {
            use_type_invariant(self);
        }
        read_be16(self.buf, 4)
    }

    /// The sequence number of the echo.
    pub fn get_sequence(&self) -> (r: u16)
        ensures
            r == u16_at(self.bytes(), 6),
    {
        proof {
            use_type_invariant(self);
        }
        read_be16(self.buf, 6)
    }
}

/// A read-only view of the bytes of a time-exceeded message.
pub struct TimeExceededPacket<'a> {
    buf: &'a [u8],
}

impl<'a> TimeExceededPacket<'a> {
    #[verifier::type_invariant]
    spec fn long_enough(&self) -> bool {
        self.buf@.len() >= ICMP_HEADER_SIZE
    }

    /// The bytes of the message.
    pub closed spec fn bytes(&self) -> Seq<u8> {
        self.buf@
    }

    /// Views `buf` as a time-exceeded message, unless it is shorter than a header.
    pub fn new_view(buf: &'a [u8]) -> (r: Result<TimeExceededPacket<'a>, Error>)
        ensures
            buf@.len() >= ICMP_HEADER_SIZE ==> r is Ok && r->Ok_0.bytes() == buf@,
            buf@.len() < ICMP_HEADER_SIZE ==> r == Err::<TimeExceededPacket<'a>, Error>(
                Error::PacketTooSmall,
            ),
    {
        if buf.len() >= ICMP_HEADER_SIZE {
            Ok(TimeExceededPacket { buf })
        } else {
            Err(Error::PacketTooSmall)
        }
    }

    /// The length of the embedded datagram in 32-bit words, or zero where it is not given.
    pub fn get_length(&self) -> (r: u8)
        ensures
            r == self.bytes()[5],
    {
        proof {
            use_type_invariant(self);
        }
        self.buf[5]
    }

    /// All bytes behind the header, an extension structure included.
    pub fn payload_raw(&self) -> (r: &'a [u8])
        ensures
            r@ == self.bytes().skip(ICMP_HEADER_SIZE as int),
    {
        proof {
            use_type_invariant(self);
        }
        slice_subrange(self.buf, ICMP_HEADER_SIZE, self.buf.len())
    }

    /// The embedded datagram: the bytes behind the header and before an extension structure.
    pub fn payload(&self) -> (r: &'a [u8])
        ensures
            r@ == embedded_datagram(self.bytes()[5], self.bytes().skip(ICMP_HEADER_SIZE as int)),
    {
        let body = self.payload_raw();
        match split_offset(self.get_length(), body) {
            Some(offset) => slice_subrange(body, 0, offset),
            None => body,
        }
    }

    /// The extension structure behind the embedded datagram, if there is a sound one.
    pub fn extension(&self) -> (r: Option<&'a [u8]>)
        ensures
            r is Some <==> extension_of(
                self.bytes()[5],
                self.bytes().skip(ICMP_HEADER_SIZE as int),
            ) is Some,
            r is Some ==> Some(r->Some_0@) == extension_of(
                self.bytes()[5],
                self.bytes().skip(ICMP_HEADER_SIZE as int),
            ),
    {
        let body = self.payload_raw();
        match split_offset(self.get_length(), body) {
            Some(offset) => Some(slice_subrange(body, offset, body.len())),
            None => None,
        }
    }
}

/// A read-only view of the bytes of a destination-unreachable message.
pub struct DestinationUnreachablePacket<'a> {
    buf: &'a [u8],
}

impl<'a> DestinationUnreachablePacket<'a> {
    #[verifier::type_invariant]
    spec fn long_enough(&self) -> bool {
        self.buf@.len() >= ICMP_HEADER_SIZE
    }

    /// The bytes of the message.
    pub closed spec fn bytes(&self) -> Seq<u8> {
        self.buf@
    }

    /// Views `buf` as a destination-unreachable message, unless it is shorter than a header.
    pub fn new_view(buf: &'a [u8]) -> (r: Result<DestinationUnreachablePacket<'a>, Error>)
        ensures
            buf@.len() >= ICMP_HEADER_SIZE ==> r is Ok && r->Ok_0.bytes() == buf@,
            buf@.len() < ICMP_HEADER_SIZE ==> r == Err::<DestinationUnreachablePacket<'a>, Error>(
                Error::PacketTooSmall,
            ),
    {
        if buf.len() >= ICMP_HEADER_SIZE {
            Ok(DestinationUnreachablePacket { buf })
        } else {
            Err(Error::PacketTooSmall)
        }
    }

    /// The length of the embedded datagram in 32-bit words, or zero where it is not given.
    pub fn get_length(&self) -> (r: u8)
        ensures
            r == self.bytes()[5],
    {
        proof {
            use_type_invariant(self);
        }
        self.buf[5]
    }

    /// All bytes behind the header, an extension structure included.
    pub fn payload_raw(&self) -> (r: &'a [u8])
        ensures
            r@ == self.bytes().skip(ICMP_HEADER_SIZE as int),
    {
        proof {
            use_type_invariant(self);
        }
        slice_subrange(self.buf, ICMP_HEADER_SIZE, self.buf.len())
    }

    /// The embedded datagram: the bytes behind the header and before an extension structure.
    pub fn payload(&self) -> (r: &'a [u8])
        ensures
            r@ == embedded_datagram(self.bytes()[5], self.bytes().skip(ICMP_HEADER_SIZE as int)),
    {
        let body = self.payload_raw();
        match split_offset(self.get_length(), body) {
            Some(offset) => slice_subrange(body, 0, offset),
            None => body,
        }
    }

    /// The extension structure behind the embedded datagram, if there is a sound one.
    pub fn extension(&self) -> (r: Option<&'a [u8]>)
        ensures
            r is Some <==> extension_of(
                self.bytes()[5],
                self.bytes().skip(ICMP_HEADER_SIZE as int),
            ) is Some,
            r is Some ==> Some(r->Some_0@) == extension_of(
                self.bytes()[5],
                self.bytes().skip(ICMP_HEADER_SIZE as int),
            ),
    {
        let body = self.payload_raw();
        match split_offset(self.get_length(), body) {
            Some(offset) => Some(slice_subrange(body, offset, body.len())),
            None => None,
        }
    }
}

} // verus!
