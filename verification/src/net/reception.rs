use vstd::prelude::*;
use std::time::SystemTime;
use crate::addr::{ipv4_addr_at, IpAddr};
use crate::net::ipv4::{
    probe_resp_seq, probe_response, protocol_number, time_exceeded_datagram,
};
use crate::packet::icmpv4::embedded_datagram;
use crate::packet::ipv4::{ipv4_header_length, ipv4_payload};
use crate::probe::{IcmpExtensionParseMode, Protocol, ResponseSeq, ResponseSeqTcp};
use crate::wire::u16_at;

verus! {

/// A time-exceeded message with another code than 0, such as 1 for a fragment reassembly
/// that ran out of time, is no response, whatever else it holds.
pub proof fn lemma_fragment_reassembly_ignored(
    protocol: Protocol,
    mode: IcmpExtensionParseMode,
    ip: Seq<u8>,
    recv: SystemTime,
)
    requires
        ipv4_payload(ip).len() >= 2,
        ipv4_payload(ip)[0] == 11,
        ipv4_payload(ip)[1] != 0,
    ensures
        probe_response(protocol, mode, ip, recv) is None,
{
}

/// A datagram identifies a probe of a trace only where its IPv4 header names the protocol
/// of the trace.
pub proof fn lemma_resp_seq_needs_protocol(protocol: Protocol, ip: Seq<u8>)
    requires
        ip[9] != protocol_number(protocol),
    ensures
        probe_resp_seq(protocol, ip) is None,
{
}

/// A time-exceeded message whose embedded datagram is of another protocol than the trace is
/// no response: one that returns an echo request is ignored in a UDP or TCP trace, and so
/// for the other pairs.
pub proof fn lemma_time_exceeded_mismatch_ignored(
    protocol: Protocol,
    mode: IcmpExtensionParseMode,
    ip: Seq<u8>,
    recv: SystemTime,
)
    requires
        ipv4_payload(ip).len() >= 8,
        ipv4_payload(ip)[0] == 11,
        time_exceeded_datagram(mode, ipv4_payload(ip))[9] != protocol_number(protocol),
    ensures
        probe_response(protocol, mode, ip, recv) is None,
{
}

/// A destination-unreachable message whose embedded datagram is of another protocol than
/// the trace is no response.
pub proof fn lemma_unreachable_mismatch_ignored(
    protocol: Protocol,
    mode: IcmpExtensionParseMode,
    ip: Seq<u8>,
    recv: SystemTime,
)
    requires
        ipv4_payload(ip).len() >= 8,
        ipv4_payload(ip)[0] == 3,
        embedded_datagram(ipv4_payload(ip)[5], ipv4_payload(ip).skip(8))[9] != protocol_number(
            protocol,
        ),
    ensures
        probe_response(protocol, mode, ip, recv) is None,
{
}

/// An echo reply is no response in a UDP or a TCP trace.
pub proof fn lemma_echo_reply_mismatch_ignored(
    protocol: Protocol,
    mode: IcmpExtensionParseMode,
    ip: Seq<u8>,
    recv: SystemTime,
)
    requires
        ipv4_payload(ip).len() >= 1,
        ipv4_payload(ip)[0] == 0,
        protocol != Protocol::Icmp,
    ensures
        probe_response(protocol, mode, ip, recv) is None,
{
}

/// In a TCP trace, a returned datagram that holds, behind an IPv4 header without options, as
/// little as the first four bytes of the TCP header identifies the probe by its destination
/// address and by the two ports that these bytes spell. This holds of the eight bytes that a
/// router must return, and of any longer part.
pub proof fn lemma_tcp_truncation_tolerated(ip: Seq<u8>)
    requires
        ip.len() >= 24,
        ipv4_header_length(ip) == 5,
        ip[9] == 6,
    ensures
        probe_resp_seq(Protocol::Tcp, ip) == Some(
            ResponseSeq::Tcp(
                ResponseSeqTcp {
                    dest_addr: IpAddr::V4(ipv4_addr_at(ip, 16)),
                    src_port: u16_at(ip, 20),
                    dest_port: u16_at(ip, 22),
                },
            ),
        ),
{
}

} // verus!
