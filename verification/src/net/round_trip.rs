use vstd::prelude::*;
use crate::addr::{ipv4_addr_at, Ipv4Addr};
use crate::checksum::{
    internet_checksum, lemma_checksum_verifies, ones_sum, udp_checksum, udp_pseudo_header,
};
use crate::net::ipv4::{echo_probe_bytes, udp_probe_bytes, udp_probe_message};
use crate::packet::icmpv4::{echo_request_header, echo_request_packet};
use crate::packet::ipv4::{
    ipv4_header, ipv4_header_length, ipv4_packet, ipv4_payload, ipv4_version, DONT_FRAGMENT,
};
use crate::packet::udp::{checksum_payload_swapped, udp_header, udp_length, udp_packet};
use crate::platform::Ipv4ByteOrder;
use crate::probe::Probe;
use crate::wire::{be16, filled, u16_at, zeroed_at};

verus! {

/// A probe's IPv4 packet reads back as it was built: version 4, a header of five words, the
/// total length and the don't-fragment flag in the byte order asked for, the identification,
/// hop limit, protocol and addresses given, a checksum field of zero, and the payload behind
/// the header.
pub proof fn lemma_ipv4_packet_reads_back(
    order: Ipv4ByteOrder,
    protocol: u8,
    src: Ipv4Addr,
    dest: Ipv4Addr,
    ttl: u8,
    identification: u16,
    payload: Seq<u8>,
)
    requires
        payload.len() <= 1004,
    ensures
        ({
            let packet = ipv4_packet(order, protocol, src, dest, ttl, identification, payload);
            &&& packet.len() == 20 + payload.len()
            &&& ipv4_version(packet) == 4
            &&& ipv4_header_length(packet) == 5
            &&& u16_at(packet, 2) == order.adjusted((20 + payload.len()) as u16)
            &&& u16_at(packet, 4) == identification
            &&& u16_at(packet, 6) == order.adjusted(DONT_FRAGMENT)
            &&& packet[8] == ttl
            &&& packet[9] == protocol
            &&& u16_at(packet, 10) == 0
            &&& ipv4_addr_at(packet, 12) == src
            &&& ipv4_addr_at(packet, 16) == dest
            &&& ipv4_payload(packet) == payload
        }),
{
    let total = (20 + payload.len()) as u16;
    let header = ipv4_header(order, protocol, src, dest, ttl, identification, total);
    let packet = ipv4_packet(order, protocol, src, dest, ttl, identification, payload);
    assert(header.len() == 20);
    assert(packet == header + payload);
    assert(forall|i: int| 0 <= i < 20 ==> packet[i] == header[i]);
    assert(ipv4_payload(packet) =~= payload);
}

/// An echo request reads back as it was built: type 8, code 0, the identifier and sequence
/// number given, the payload behind the header, and a checksum that verifies: the checksum
/// field holds the checksum of the message, and the one's-complement sum of the whole
/// message is `0xffff`.
pub proof fn lemma_echo_request_reads_back(identifier: u16, sequence: u16, payload: Seq<u8>)
    ensures
        ({
            let message = echo_request_packet(identifier, sequence, payload);
            &&& message.len() == 8 + payload.len()
            &&& message[0] == 8
            &&& message[1] == 0
            &&& u16_at(message, 2) == internet_checksum(zeroed_at(message, 2))
            &&& ones_sum(message) == 0xffff
            &&& u16_at(message, 4) == identifier
            &&& u16_at(message, 6) == sequence
            &&& message.skip(8) == payload
        }),
{
    let unsummed = echo_request_header(0, identifier, sequence) + payload;
    let sum = internet_checksum(unsummed);
    let header = echo_request_header(sum, identifier, sequence);
    let message = echo_request_packet(identifier, sequence, payload);
    assert(header.len() == 8);
    assert(message == header + payload);
    assert(forall|i: int| 0 <= i < 8 ==> message[i] == header[i]);
    assert(message.skip(8) =~= payload);
    assert(zeroed_at(message, 2) =~= unsummed);
    lemma_checksum_verifies(message, 2);
}

/// For every echo probe of 28 to 1024 bytes, the bytes handed to the socket decode as an
/// IPv4 packet that carries, as protocol 1 and with don't-fragment set, an echo request with
/// the probe's identifier and sequence number, a payload of the pattern in the length asked
/// for, and a checksum that verifies. The IPv4 header checksum is left zero for the kernel.
pub proof fn lemma_echo_probe_round_trip(
    probe: Probe,
    src: Ipv4Addr,
    dest: Ipv4Addr,
    payload_size: usize,
    pattern: u8,
    order: Ipv4ByteOrder,
)
    requires
        payload_size <= 996,
    ensures
        ({
            let packet = echo_probe_bytes(probe, src, dest, payload_size, pattern, order);
            let message = ipv4_payload(packet);
            &&& packet.len() == 28 + payload_size
            &&& ipv4_version(packet) == 4
            &&& ipv4_header_length(packet) == 5
            &&& u16_at(packet, 2) == order.adjusted((28 + payload_size) as u16)
            &&& u16_at(packet, 4) == 0
            &&& u16_at(packet, 6) == order.adjusted(DONT_FRAGMENT)
            &&& packet[8] == probe.ttl.0
            &&& packet[9] == 1
            &&& u16_at(packet, 10) == 0
            &&& ipv4_addr_at(packet, 12) == src
            &&& ipv4_addr_at(packet, 16) == dest
            &&& message.len() == 8 + payload_size
            &&& message[0] == 8
            &&& message[1] == 0
            &&& u16_at(message, 2) == internet_checksum(zeroed_at(message, 2))
            &&& ones_sum(message) == 0xffff
            &&& u16_at(message, 4) == probe.identifier.0
            &&& u16_at(message, 6) == probe.sequence.0
            &&& message.skip(8) == filled(pattern, payload_size)
        }),
{
    let payload = filled(pattern, payload_size);
    let message = echo_request_packet(probe.identifier.0, probe.sequence.0, payload);
    lemma_echo_request_reads_back(probe.identifier.0, probe.sequence.0, payload);
    lemma_ipv4_packet_reads_back(order, 1, src, dest, probe.ttl.0, 0, message);
}

/// A UDP message reads back as it was built: the ports given, a length of the header and
/// the payload, the payload behind the header, and a checksum that verifies over the
/// pseudo-header: the checksum field holds the checksum of the message, and the
/// one's-complement sum of pseudo-header and message is `0xffff`.
pub proof fn lemma_udp_packet_reads_back(
    src: Ipv4Addr,
    dest: Ipv4Addr,
    src_port: u16,
    dest_port: u16,
    payload: Seq<u8>,
)
    requires
        payload.len() <= 996,
    ensures
        ({
            let message = udp_packet(src, dest, src_port, dest_port, payload);
            &&& message.len() == 8 + payload.len()
            &&& u16_at(message, 0) == src_port
            &&& u16_at(message, 2) == dest_port
            &&& u16_at(message, 4) == 8 + payload.len()
            &&& u16_at(message, 6) == udp_checksum(message, src, dest)
            &&& ones_sum(udp_pseudo_header(src, dest, message.len() as u16) + message)
                == 0xffff
            &&& message.skip(8) == payload
        }),
{
    let length = udp_length(payload);
    let pseudo = udp_pseudo_header(src, dest, length);
    let unsummed = pseudo + udp_header(src_port, dest_port, length, 0) + payload;
    let sum = internet_checksum(unsummed);
    let header = udp_header(src_port, dest_port, length, sum);
    let message = udp_packet(src, dest, src_port, dest_port, payload);
    assert(header.len() == 8);
    assert(pseudo.len() == 12);
    assert(message == header + payload);
    assert(forall|i: int| 0 <= i < 8 ==> message[i] == header[i]);
    assert(message.skip(8) =~= payload);
    assert(message.len() as u16 == length);
    assert(pseudo + zeroed_at(message, 6) =~= unsummed);
    let all = pseudo + message;
    assert(zeroed_at(all, 18) =~= unsummed);
    assert(u16_at(all, 18) == u16_at(message, 6));
    lemma_checksum_verifies(all, 18);
}

/// For every UDP probe without the Paris option and with a payload that fits, the bytes
/// handed to the raw socket decode as an IPv4 packet that carries, as protocol 17 and with
/// don't-fragment set, a UDP message with the probe's ports, the payload given, and a
/// checksum that verifies over the pseudo-header.
pub proof fn lemma_udp_probe_round_trip(
    probe: Probe,
    src: Ipv4Addr,
    dest: Ipv4Addr,
    payload: Seq<u8>,
    order: Ipv4ByteOrder,
)
    requires
        payload.len() <= 996,
        !probe.flags.paris(),
    ensures
        ({
            let packet = udp_probe_bytes(probe, src, dest, payload, order);
            let message = ipv4_payload(packet);
            &&& packet.len() == 28 + payload.len()
            &&& ipv4_version(packet) == 4
            &&& ipv4_header_length(packet) == 5
            &&& u16_at(packet, 2) == order.adjusted((28 + payload.len()) as u16)
            &&& u16_at(packet, 6) == order.adjusted(DONT_FRAGMENT)
            &&& packet[8] == probe.ttl.0
            &&& packet[9] == 17
            &&& ipv4_addr_at(packet, 12) == src
            &&& ipv4_addr_at(packet, 16) == dest
            &&& u16_at(message, 0) == probe.src_port.0
            &&& u16_at(message, 2) == probe.dest_port.0
            &&& u16_at(message, 4) == 8 + payload.len()
            &&& u16_at(message, 6) == udp_checksum(message, src, dest)
            &&& ones_sum(udp_pseudo_header(src, dest, message.len() as u16) + message)
                == 0xffff
            &&& message.skip(8) == payload
        }),
{
    let message = udp_packet(src, dest, probe.src_port.0, probe.dest_port.0, payload);
    lemma_udp_packet_reads_back(src, dest, probe.src_port.0, probe.dest_port.0, payload);
    lemma_ipv4_packet_reads_back(order, 17, src, dest, probe.ttl.0, probe.identifier.0, message);
}

/// With the Paris option, whatever the sequence number and the payload asked for: the UDP
/// message on the wire has ten bytes, its checksum field holds the sequence number, and
/// exchanging the checksum field and the payload again gives the message with the sequence
/// number as its payload and a checksum that verifies over the pseudo-header.
pub proof fn lemma_paris_swap(probe: Probe, src: Ipv4Addr, dest: Ipv4Addr, payload: Seq<u8>)
    requires
        probe.flags.paris(),
    ensures
        ({
            let wire = udp_probe_message(probe, src, dest, payload);
            let plain = checksum_payload_swapped(wire);
            &&& wire.len() == 10
            &&& u16_at(wire, 0) == probe.src_port.0
            &&& u16_at(wire, 2) == probe.dest_port.0
            &&& u16_at(wire, 4) == 10
            &&& u16_at(wire, 6) == probe.sequence.0
            &&& wire.skip(8) == be16(u16_at(plain, 6))
            &&& plain == udp_packet(
                src,
                dest,
                probe.src_port.0,
                probe.dest_port.0,
                be16(probe.sequence.0),
            )
            &&& plain.skip(8) == be16(probe.sequence.0)
            &&& u16_at(plain, 6) == udp_checksum(plain, src, dest)
            &&& ones_sum(udp_pseudo_header(src, dest, 10) + plain) == 0xffff
        }),
{
    let plain = udp_packet(
        src,
        dest,
        probe.src_port.0,
        probe.dest_port.0,
        be16(probe.sequence.0),
    );
    lemma_udp_packet_reads_back(
        src,
        dest,
        probe.src_port.0,
        probe.dest_port.0,
        be16(probe.sequence.0),
    );
    let wire = checksum_payload_swapped(plain);
    assert(plain.skip(8)[0] == plain[8]);
    assert(plain.skip(8)[1] == plain[9]);
    assert(checksum_payload_swapped(wire) =~= plain);
    assert(wire.skip(8) =~= be16(u16_at(plain, 6)));
}

/// The packet of every UDP probe for a raw socket, with the Paris option or without it,
/// carries the trace identifier in the identification field of its IPv4 header.
pub proof fn lemma_udp_probe_identification(
    probe: Probe,
    src: Ipv4Addr,
    dest: Ipv4Addr,
    payload: Seq<u8>,
    order: Ipv4ByteOrder,
)
    requires
        payload.len() <= 996,
    ensures
        u16_at(udp_probe_bytes(probe, src, dest, payload, order), 4) == probe.identifier.0,
{
    let message = udp_probe_message(probe, src, dest, payload);
    if probe.flags.paris() {
        lemma_paris_swap(probe, src, dest, payload);
    } else {
        lemma_udp_packet_reads_back(src, dest, probe.src_port.0, probe.dest_port.0, payload);
    }
    lemma_ipv4_packet_reads_back(order, 17, src, dest, probe.ttl.0, probe.identifier.0, message);
}

} // verus!
