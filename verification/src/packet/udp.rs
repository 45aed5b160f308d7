use vstd::prelude::*;
use vstd::slice::slice_subrange;
use crate::addr::Ipv4Addr;
use crate::checksum::{internet_checksum, udp_ipv4_checksum, udp_pseudo_header};
use crate::error::Error;
use crate::wire::{
    be16, read_be16, u16_at, with_bytes_at, with_u16_at, write_all, write_be16, zeroed_at, zeros,
};

verus! {

/// The length of the header of a UDP message.
pub const UDP_HEADER_SIZE: usize = 8;

/// The longest payload of a UDP probe: what a packet of 1024 bytes leaves behind the IPv4
/// and UDP headers.
pub const MAX_UDP_PAYLOAD: usize = 996;

/// The eight header bytes of a UDP message.
pub open spec fn udp_header(src_port: u16, dest_port: u16, length: u16, checksum: u16) -> Seq<
    u8,
> {
    be16(src_port) + be16(dest_port) + be16(length) + be16(checksum)
}

/// The length field of a UDP message around `payload`.
pub open spec fn udp_length(payload: Seq<u8>) -> u16 {
    (UDP_HEADER_SIZE + payload.len()) as u16
}

/// The bytes of a UDP message from `src` to `dest` around `payload`, with its checksum
/// filled in.
pub open spec fn udp_packet(
    src: Ipv4Addr,
    dest: Ipv4Addr,
    src_port: u16,
    dest_port: u16,
    payload: Seq<u8>,
) -> Seq<u8> {
    udp_header(
        src_port,
        dest_port,
        udp_length(payload),
        internet_checksum(
            udp_pseudo_header(src, dest, udp_length(payload)) + udp_header(
                src_port,
                dest_port,
                udp_length(payload),
                0,
            ) + payload,
        ),
    ) + payload
}

/// `message` with its checksum field and the first two bytes of its payload exchanged.
pub open spec fn checksum_payload_swapped(message: Seq<u8>) -> Seq<u8> {
    message.update(6, message[8]).update(7, message[9]).update(8, message[6]).update(
        9,
        message[7],
    )
}

/// Builds a UDP message from `src_addr` to `dest_addr` around `payload`.
pub fn make_udp_packet(
    src_addr: Ipv4Addr,
    dest_addr: Ipv4Addr,
    src_port: u16,
    dest_port: u16,
    payload: &[u8],
) -> (r: Result<MutableUdpPacket, Error>)
    requires
        payload@.len() <= MAX_UDP_PAYLOAD,
    ensures
        r is Ok,
        r->Ok_0.wf(),
        r->Ok_0.bytes() == udp_packet(src_addr, dest_addr, src_port, dest_port, payload@),
{
    let udp_packet_size = UDP_HEADER_SIZE + payload.len();
    let mut udp = MutableUdpPacket::new(zeros(udp_packet_size))?;
    udp.set_source(src_port);
    udp.set_destination(dest_port);
    udp.set_length(udp_packet_size as u16);
    udp.set_payload(payload);
    let ghost unsummed = udp.bytes();
    assert(unsummed =~= udp_header(src_port, dest_port, udp_length(payload@), 0) + payload@);
    assert(zeroed_at(unsummed, 6) =~= unsummed);
    assert(udp_pseudo_header(src_addr, dest_addr, udp_length(payload@)) + udp_header(
        src_port,
        dest_port,
        udp_length(payload@),
        0,
    ) + payload@ =~= udp_pseudo_header(src_addr, dest_addr, unsummed.len() as u16) + zeroed_at(
        unsummed,
        6,
    ));
    let sum = udp_ipv4_checksum(udp.packet(), src_addr, dest_addr);
    udp.set_checksum(sum);
    assert(udp.bytes() =~= udp_packet(src_addr, dest_addr, src_port, dest_port, payload@));
    Ok(udp)
}

/// The bytes of a UDP message under construction, which are at least a header's worth.
pub struct MutableUdpPacket {
    buf: Vec<u8>,
}

impl MutableUdpPacket {
    /// The bytes of the message.
    pub closed spec fn bytes(&self) -> Seq<u8> {
        self.buf@
    }

    /// Whether the message has room for its header, as every message made by `new` has and
    /// keeps.
    pub open spec fn wf(&self) -> bool {
        self.bytes().len() >= UDP_HEADER_SIZE
    }

    /// Takes `buf` as the bytes of a UDP message, unless it is shorter than a header.
    pub fn new(buf: Vec<u8>) -> (r: Result<MutableUdpPacket, Error>)
        ensures
            buf@.len() >= UDP_HEADER_SIZE ==> r is Ok && r->Ok_0.bytes() == buf@ && r->Ok_0.wf(),
            buf@.len() < UDP_HEADER_SIZE ==> r == Err::<MutableUdpPacket, Error>(
                Error::PacketTooSmall,
            ),
    {
        if buf.len() >= UDP_HEADER_SIZE {
            Ok(MutableUdpPacket { buf })
        } else {
            Err(Error::PacketTooSmall)
        }
    }

    /// The bytes of the message.
    pub fn packet(&self) -> (r: &[u8])
        ensures
            r@ == self.bytes(),
    {
        self.buf.as_slice()
    }

    /// Gives the bytes of the message back.
    pub fn into_inner(self) -> (r: Vec<u8>)
        ensures
            r@ == self.bytes(),
    {
        self.buf
    }

    /// The checksum field.
    pub fn get_checksum(&self) -> (r: u16)
        requires
            self.wf(),
        ensures
            r == u16_at(self.bytes(), 6),
    {
        read_be16(self.buf.as_slice(), 6)
    }

    /// The bytes behind the header.
    pub fn payload(&self) -> (r: &[u8])
        requires
            self.wf(),
        ensures
            r@ == self.bytes().skip(UDP_HEADER_SIZE as int),
    {
        slice_subrange(self.buf.as_slice(), UDP_HEADER_SIZE, self.buf.len())
    }

    /// Sets the source port.
    pub fn set_source(&mut self, source: u16)
        requires
            old(self).wf(),
        ensures
            final(self).bytes() == with_u16_at(old(self).bytes(), 0, source),
    {
        write_be16(&mut self.buf, 0, source);
    }

    /// Sets the destination port.
    pub fn set_destination(&mut self, destination: u16)
        requires
            old(self).wf(),
        ensures
            final(self).bytes() == with_u16_at(old(self).bytes(), 2, destination),
    {
        write_be16(&mut self.buf, 2, destination);
    }

    /// Sets the length field.
    pub fn set_length(&mut self, length: u16)
        requires
            old(self).wf(),
        ensures
            final(self).bytes() == with_u16_at(old(self).bytes(), 4, length),
    {
        write_be16(&mut self.buf, 4, length);
    }

    /// Sets the checksum field.
    pub fn set_checksum(&mut self, checksum: u16)
        requires
            old(self).wf(),
        ensures
            final(self).bytes() == with_u16_at(old(self).bytes(), 6, checksum),
    {
        write_be16(&mut self.buf, 6, checksum);
    }

    /// Copies `payload` to the place behind the header.
    pub fn set_payload(&mut self, payload: &[u8])
        requires
            old(self).wf(),
            UDP_HEADER_SIZE + payload@.len() <= old(self).bytes().len(),
        ensures
            final(self).bytes() == with_bytes_at(old(self).bytes(), 8, payload@),
    {
        write_all(&mut self.buf, UDP_HEADER_SIZE, payload);
    }
}

/// Exchanges the checksum field of `udp` with the first two bytes of its payload.
pub fn swap_checksum_and_payload(udp: &mut MutableUdpPacket)
    requires
        old(udp).bytes().len() >= UDP_HEADER_SIZE + 2,
    ensures
        final(udp).bytes() == checksum_payload_swapped(old(udp).bytes()),
{
    let checksum = udp.get_checksum();
    let payload = read_be16(udp.payload(), 0);
    let mut checksum_bytes: Vec<u8> = Vec::new();
    checksum_bytes.push((checksum / 256) as u8);
    checksum_bytes.push((checksum % 256) as u8);
    udp.set_checksum(payload);
    udp.set_payload(checksum_bytes.as_slice());
    assert(udp.bytes() =~= checksum_payload_swapped(old(udp).bytes()));
}

/// A read-only view of the bytes of a UDP message.
pub struct UdpPacket<'a> {
    buf: &'a [u8],
}

impl<'a> UdpPacket<'a> {
    #[verifier::type_invariant]
    spec fn long_enough(&self) -> bool {
        self.buf@.len() >= UDP_HEADER_SIZE
    }

    /// The bytes of the message.
    pub closed spec fn bytes(&self) -> Seq<u8> {
        self.buf@
    }

    /// The least number of bytes that a message has.
    pub fn minimum_packet_size() -> (r: usize)
        ensures
            r == UDP_HEADER_SIZE,
    {
        UDP_HEADER_SIZE
    }

    /// Views `buf` as a UDP message, unless it is shorter than a header.
    pub fn new_view(buf: &'a [u8]) -> (r: Result<UdpPacket<'a>, Error>)
        ensures
            buf@.len() >= UDP_HEADER_SIZE ==> r is Ok && r->Ok_0.bytes() == buf@,
            buf@.len() < UDP_HEADER_SIZE ==> r == Err::<UdpPacket<'a>, Error>(
                Error::PacketTooSmall,
            ),
    {
        if buf.len() >= UDP_HEADER_SIZE {
            Ok(UdpPacket { buf })
        } else {
            Err(Error::PacketTooSmall)
        }
    }

    /// The source port.
    pub fn get_source(&self) -> (r: u16)
        ensures
            r == u16_at(self.bytes(), 0),
    {
        proof {
            use_type_invariant(self);
        }
        read_be16(self.buf, 0)
    }

    /// The destination port.
    pub fn get_destination(&self) -> (r: u16)
        ensures
            r == u16_at(self.bytes(), 2),
    {
        proof {
            use_type_invariant(self);
        }
        read_be16(self.buf, 2)
    }

    /// The length field: that of header and payload together.
    pub fn get_length(&self) -> (r: u16)
        ensures
            r == u16_at(self.bytes(), 4),
    {
        proof {
            use_type_invariant(self);
        }
        read_be16(self.buf, 4)
    }

    /// The checksum field.
    pub fn get_checksum(&self) -> (r: u16)
        ensures
            r == u16_at(self.bytes(), 6),
    {
        proof {
            use_type_invariant(self);
        }
        read_be16(self.buf, 6)
    }

    /// The bytes behind the header.
    pub fn payload(&self) -> (r: &'a [u8])
        ensures
            r@ == self.bytes().skip(UDP_HEADER_SIZE as int),
    {
        proof {
            use_type_invariant(self);
        }
        slice_subrange(self.buf, UDP_HEADER_SIZE, self.buf.len())
    }
}

} // verus!
