use vstd::prelude::*;
use vstd::slice::slice_subrange;
use crate::addr::{ipv4_addr_at, Ipv4Addr};
use crate::error::Error;
use crate::platform::Ipv4ByteOrder;
use crate::wire::{
    be16, filled, read_be16, u16_at, with_bytes_at, with_u16_at, write_all, write_be16, zeros,
};

verus! {

/// The length of an IPv4 header without options.
pub const IPV4_HEADER_SIZE: usize = 20;

/// The `flags_and_fragment_offset` value with only the don't-fragment bit set.
pub const DONT_FRAGMENT: u16 = 0x4000;

/// The protocol that an IPv4 packet carries.
#[derive(Debug, Clone, Copy, PartialEq, Eq, Structural)]
pub enum IpProtocol {
    Icmp,
    IcmpV6,
    Udp,
    Tcp,
    Other(u8),
}

impl IpProtocol {
    /// The protocol's number in the IPv4 header.
    pub open spec fn spec_id(self) -> u8 {
        match self {
            IpProtocol::Icmp => 1,
            IpProtocol::IcmpV6 => 58,
            IpProtocol::Udp => 17,
            IpProtocol::Tcp => 6,
            IpProtocol::Other(id) => id,
        }
    }

    /// The protocol with the number `id`.
    pub open spec fn spec_from_id(id: u8) -> IpProtocol {
        if id == 1 {
            IpProtocol::Icmp
        } else if id == 58 {
            IpProtocol::IcmpV6
        } else if id == 17 {
            IpProtocol::Udp
        } else if id == 6 {
            IpProtocol::Tcp
        } else {
            IpProtocol::Other(id)
        }
    }

    /// The protocol's number in the IPv4 header.
    pub fn id(self) -> (r: u8)
        ensures
            r == self.spec_id(),
    {
        match self {
            IpProtocol::Icmp => 1,
            IpProtocol::IcmpV6 => 58,
            IpProtocol::Udp => 17,
            IpProtocol::Tcp => 6,
            IpProtocol::Other(id) => id,
        }
    }

    /// The protocol with the number `id`.
    pub fn from_id(id: u8) -> (r: IpProtocol)
        ensures
            r == IpProtocol::spec_from_id(id),
            r.spec_id() == id,
    {
        if id == 1 {
            IpProtocol::Icmp
        } else if id == 58 {
            IpProtocol::IcmpV6
        } else if id == 17 {
            IpProtocol::Udp
        } else if id == 6 {
            IpProtocol::Tcp
        } else {
            IpProtocol::Other(id)
        }
    }
}

/// The 20 bytes of the header of a probe's IPv4 packet: version 4, no options, type of
/// service zero, don't-fragment set, checksum left zero for the kernel to fill. The total
/// length and the flags stand in the byte order `order`, all else in network order.
pub open spec fn ipv4_header(
    order: Ipv4ByteOrder,
    protocol: u8,
    src: Ipv4Addr,
    dest: Ipv4Addr,
    ttl: u8,
    identification: u16,
    total_length: u16,
) -> Seq<u8> {
    seq![0x45u8, 0u8] + be16(order.adjusted(total_length)) + be16(identification) + be16(
        order.adjusted(DONT_FRAGMENT),
    ) + seq![ttl, protocol, 0u8, 0u8] + src.bytes() + dest.bytes()
}

/// The bytes of a probe's IPv4 packet around `payload`.
pub open spec fn ipv4_packet(
    order: Ipv4ByteOrder,
    protocol: u8,
    src: Ipv4Addr,
    dest: Ipv4Addr,
    ttl: u8,
    identification: u16,
    payload: Seq<u8>,
) -> Seq<u8> {
    ipv4_header(
        order,
        protocol,
        src,
        dest,
        ttl,
        identification,
        (IPV4_HEADER_SIZE + payload.len()) as u16,
    ) + payload
}

/// The version field of the IPv4 packet `b`.
pub open spec fn ipv4_version(b: Seq<u8>) -> u8 {
    b[0] / 16
}

/// The header length field of the IPv4 packet `b`, in 32-bit words.
pub open spec fn ipv4_header_length(b: Seq<u8>) -> u8 {
    b[0] % 16
}

/// The offset at which the payload of the IPv4 packet `b` starts: behind the header of the
/// length that the header length field gives, which is at least 20 bytes and at most all of `b`.
pub open spec fn ipv4_payload_start(b: Seq<u8>) -> int {
    let header = ipv4_header_length(b) as int * 4;
    let header = if header < 20 {
        20
    } else {
        header
    };
    if header > b.len() {
        b.len() as int
    } else {
        header
    }
}

/// The payload of the IPv4 packet `b`.
pub open spec fn ipv4_payload(b: Seq<u8>) -> Seq<u8> {
    b.skip(ipv4_payload_start(b))
}

/// Builds a probe's IPv4 packet around `payload`.
pub fn make_ipv4_packet(
    ipv4_byte_order: Ipv4ByteOrder,
    protocol: IpProtocol,
    src_addr: Ipv4Addr,
    dest_addr: Ipv4Addr,
    ttl: u8,
    identification: u16,
    payload: &[u8],
) -> (r: Result<MutableIpv4Packet, Error>)
    requires
        payload@.len() <= 1004,
    ensures
        r is Ok,
        r->Ok_0.wf(),
        r->Ok_0.bytes() == ipv4_packet(
            ipv4_byte_order,
            protocol.spec_id(),
            src_addr,
            dest_addr,
            ttl,
            identification,
            payload@,
        ),
{
    let ipv4_total_length: u16 = (IPV4_HEADER_SIZE + payload.len()) as u16;
    let ipv4_total_length_header = ipv4_byte_order.adjust_length(ipv4_total_length);
    let ipv4_flags_and_fragment_offset_header = ipv4_byte_order.adjust_length(DONT_FRAGMENT);
    let mut ipv4 = MutableIpv4Packet::new(zeros(IPV4_HEADER_SIZE + payload.len()))?;
    ipv4.set_version(4);
    ipv4.set_header_length(5);
    ipv4.set_total_length(ipv4_total_length_header);
    ipv4.set_ttl(ttl);
    ipv4.set_protocol(protocol);
    ipv4.set_source(src_addr);
    ipv4.set_destination(dest_addr);
    ipv4.set_payload(payload);
    ipv4.set_identification(identification);
    ipv4.set_flags_and_fragment_offset(ipv4_flags_and_fragment_offset_header);
    assert(ipv4.bytes() =~= ipv4_packet(
        ipv4_byte_order,
        protocol.spec_id(),
        src_addr,
        dest_addr,
        ttl,
        identification,
        payload@,
    ));
    Ok(ipv4)
}

/// The bytes of an IPv4 packet under construction, which are at least a header's worth.
pub struct MutableIpv4Packet {
    buf: Vec<u8>,
}

impl MutableIpv4Packet {
    /// The bytes of the packet.
    pub closed spec fn bytes(&self) -> Seq<u8> {
        self.buf@
    }

    /// Whether the packet has room for its header, as every packet made by `new` has and
    /// keeps.
    pub open spec fn wf(&self) -> bool {
        self.bytes().len() >= IPV4_HEADER_SIZE
    }

    /// Takes `buf` as the bytes of an IPv4 packet, unless it is shorter than a header.
    pub fn new(buf: Vec<u8>) -> (r: Result<MutableIpv4Packet, Error>)
        ensures
            buf@.len() >= IPV4_HEADER_SIZE ==> r is Ok && r->Ok_0.bytes() == buf@ && r->Ok_0.wf(),
            buf@.len() < IPV4_HEADER_SIZE ==> r == Err::<MutableIpv4Packet, Error>(
                Error::PacketTooSmall,
            ),
    {
        if buf.len() >= IPV4_HEADER_SIZE {
            Ok(MutableIpv4Packet { buf })
        } else {
            Err(Error::PacketTooSmall)
        }
    }

    /// The bytes of the packet.
    pub fn packet(&self) -> (r: &[u8])
        ensures
            r@ == self.bytes(),
    {
        self.buf.as_slice()
    }

    /// Gives the bytes of the packet back.
    pub fn into_inner(self) -> (r: Vec<u8>)
        ensures
            r@ == self.bytes(),
    {
        self.buf
    }

    /// Sets the version field, the high four bits of the first byte.
    pub fn set_version(&mut self, version: u8)
        requires
            old(self).wf(),
            version < 16,
        ensures
            final(self).bytes() == old(self).bytes().update(
                0,
                (version * 16 + old(self).bytes()[0] % 16) as u8,
            ),
    {
        let low = self.buf[0] % 16;
        self.buf.set(0, version * 16 + low);
    }

    /// Sets the header length field, the low four bits of the first byte.
    pub fn set_header_length(&mut self, header_length: u8)
        requires
            old(self).wf(),
            header_length < 16,
        ensures
            final(self).bytes() == old(self).bytes().update(
                0,
                (old(self).bytes()[0] / 16 * 16 + header_length) as u8,
            ),
    {
        let high = self.buf[0] / 16;
        self.buf.set(0, high * 16 + header_length);
    }

    /// Sets the total length field to `total_length`, written in network byte order.
    pub fn set_total_length(&mut self, total_length: u16)
        requires
            old(self).wf(),
        ensures
            final(self).bytes() == with_u16_at(old(self).bytes(), 2, total_length),
    {
        write_be16(&mut self.buf, 2, total_length);
    }

    /// Sets the identification field.
    pub fn set_identification(&mut self, identification: u16)
        requires
            old(self).wf(),
        ensures
            final(self).bytes() == with_u16_at(old(self).bytes(), 4, identification),
    {
        write_be16(&mut self.buf, 4, identification);
    }

    /// Sets the flags and fragment offset field to `value`, written in network byte order.
    pub fn set_flags_and_fragment_offset(&mut self, value: u16)
        requires
            old(self).wf(),
        ensures
            final(self).bytes() == with_u16_at(old(self).bytes(), 6, value),
    {
        write_be16(&mut self.buf, 6, value);
    }

    /// Sets the hop limit.
    pub fn set_ttl(&mut self, ttl: u8)
        requires
            old(self).wf(),
        ensures
            final(self).bytes() == old(self).bytes().update(8, ttl),
    {
        self.buf.set(8, ttl);
    }

    /// Sets the protocol that the packet carries.
    pub fn set_protocol(&mut self, protocol: IpProtocol)
        requires
            old(self).wf(),
        ensures
            final(self).bytes() == old(self).bytes().update(9, protocol.spec_id()),
    {
        self.buf.set(9, protocol.id());
    }

    /// Sets the checksum field.
    pub fn set_checksum(&mut self, checksum: u16)
        requires
            old(self).wf(),
        ensures
            final(self).bytes() == with_u16_at(old(self).bytes(), 10, checksum),
    {
        write_be16(&mut self.buf, 10, checksum);
    }

    /// Sets the source address.
    pub fn set_source(&mut self, source: Ipv4Addr)
        requires
            old(self).wf(),
        ensures
            final(self).bytes() == with_bytes_at(old(self).bytes(), 12, source.bytes()),
    {
        let octets = source.octets();
        write_all(&mut self.buf, 12, octets.as_slice());
    }

    /// Sets the destination address.
    pub fn set_destination(&mut self, destination: Ipv4Addr)
        requires
            old(self).wf(),
        ensures
            final(self).bytes() == with_bytes_at(old(self).bytes(), 16, destination.bytes()),
    {
        let octets = destination.octets();
        write_all(&mut self.buf, 16, octets.as_slice());
    }

    /// Copies `payload` to the place behind a header without options.
    pub fn set_payload(&mut self, payload: &[u8])
        requires
            old(self).wf(),
            IPV4_HEADER_SIZE + payload@.len() <= old(self).bytes().len(),
        ensures
            final(self).bytes() == with_bytes_at(
                old(self).bytes(),
                IPV4_HEADER_SIZE as int,
                payload@,
            ),
    {
        write_all(&mut self.buf, IPV4_HEADER_SIZE, payload);
    }
}

/// A read-only view of the bytes of an IPv4 packet, which are at least a header's worth.
pub struct Ipv4Packet<'a> {
    buf: &'a [u8],
}

impl<'a> Ipv4Packet<'a> {
    #[verifier::type_invariant]
    spec fn long_enough(&self) -> bool {
        self.buf@.len() >= IPV4_HEADER_SIZE
    }

    /// The bytes of the packet.
    pub closed spec fn bytes(&self) -> Seq<u8> {
        self.buf@
    }

    /// The least number of bytes that a packet has.
    pub fn minimum_packet_size() -> (r: usize)
        ensures
            r == IPV4_HEADER_SIZE,
    {
        IPV4_HEADER_SIZE
    }

    /// Views `buf` as an IPv4 packet, unless it is shorter than a header.
    pub fn new_view(buf: &'a [u8]) -> (r: Result<Ipv4Packet<'a>, Error>)
        ensures
            buf@.len() >= IPV4_HEADER_SIZE ==> r is Ok && r->Ok_0.bytes() == buf@,
            buf@.len() < IPV4_HEADER_SIZE ==> r == Err::<Ipv4Packet<'a>, Error>(
                Error::PacketTooSmall,
            ),
    {
        if buf.len() >= IPV4_HEADER_SIZE {
            Ok(Ipv4Packet { buf })
        } else {
            Err(Error::PacketTooSmall)
        }
    }

    /// The bytes of the packet.
    pub fn packet(&self) -> (r: &'a [u8])
        ensures
            r@ == self.bytes(),
            r@.len() >= IPV4_HEADER_SIZE,
    {
        proof {
            use_type_invariant(self);
        }
        self.buf
    }

    /// The version field: the high four bits of the first byte.
    pub fn get_version(&self) -> (r: u8)
        ensures
            r == ipv4_version(self.bytes()),
    {
        proof {
            use_type_invariant(self);
        }
        self.buf[0] / 16
    }

    /// The header length field, in 32-bit words: the low four bits of the first byte.
    pub fn get_header_length(&self) -> (r: u8)
        ensures
            r == ipv4_header_length(self.bytes()),
    {
        proof {
            use_type_invariant(self);
        }
        self.buf[0] % 16
    }

    /// The total length field, read in network byte order.
    pub fn get_total_length(&self) -> (r: u16)
        ensures
            r == u16_at(self.bytes(), 2),
    {
        proof {
            use_type_invariant(self);
        }
        read_be16(self.buf, 2)
    }

    /// The identification field.
    pub fn get_identification(&self) -> (r: u16)
        ensures
            r == u16_at(self.bytes(), 4),
    {
        proof {
            use_type_invariant(self);
        }
        read_be16(self.buf, 4)
    }

    /// The flags and fragment offset field, read in network byte order.
    pub fn get_flags_and_fragment_offset(&self) -> (r: u16)
        ensures
            r == u16_at(self.bytes(), 6),
    {
        proof {
            use_type_invariant(self);
        }
        read_be16(self.buf, 6)
    }

    /// The hop limit.
    pub fn get_ttl(&self) -> (r: u8)
        ensures
            r == self.bytes()[8],
    {
        proof {
            use_type_invariant(self);
        }
        self.buf[8]
    }

    /// The protocol that the packet carries.
    pub fn get_protocol(&self) -> (r: IpProtocol)
        ensures
            r == IpProtocol::spec_from_id(self.bytes()[9]),
    {
        proof {
            use_type_invariant(self);
        }
        IpProtocol::from_id(self.buf[9])
    }

    /// The checksum field.
    pub fn get_checksum(&self) -> (r: u16)
        ensures
            r == u16_at(self.bytes(), 10),
    {
        proof {
            use_type_invariant(self);
        }
        read_be16(self.buf, 10)
    }

    /// The source address.
    pub fn get_source(&self) -> (r: Ipv4Addr)
        ensures
            r == ipv4_addr_at(self.bytes(), 12),
    {
        proof {
            use_type_invariant(self);
        }
        Ipv4Addr::new(self.buf[12], self.buf[13], self.buf[14], self.buf[15])
    }

    /// The destination address.
    pub fn get_destination(&self) -> (r: Ipv4Addr)
        ensures
            r == ipv4_addr_at(self.bytes(), 16),
    {
        proof {
            use_type_invariant(self);
        }
        Ipv4Addr::new(self.buf[16], self.buf[17], self.buf[18], self.buf[19])
    }

    /// The bytes behind the header, options included in the header.
    pub fn payload(&self) -> (r: &'a [u8])
        ensures
            r@ == ipv4_payload(self.bytes()),
    {
        proof {
            use_type_invariant(self);
        }
        let ihl: usize = (self.buf[0] % 16) as usize;
        let mut start: usize = ihl * 4;
        if start < IPV4_HEADER_SIZE {
            start = IPV4_HEADER_SIZE;
        }
        if start > self.buf.len() {
            start = self.buf.len();
        }
        slice_subrange(self.buf, start, self.buf.len())
    }
}

} // verus!
