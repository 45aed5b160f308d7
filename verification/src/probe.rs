use vstd::prelude::*;
use std::time::SystemTime;
use crate::addr::IpAddr;
use crate::extension::{ExtensionView, Extensions};
use crate::types::{Flags, Port, RoundId, Sequence, TimeToLive, TraceId};

verus! {

/// The standard library's wall-clock time, `std::time::SystemTime`: carried through as it
/// is, nothing is known of what it holds.
#[verifier::external_type_specification]
#[verifier::external_body]
pub struct ExSystemTime(SystemTime);

/// Reads the wall clock with `SystemTime::now`. Nothing is claimed of the time that comes
/// back: two readings may differ in any way.
#[verifier::external_body]
pub(crate) fn now() -> (t: SystemTime) {
    SystemTime::now()
}

/// The transport protocol of the probes of a trace.
#[derive(Debug, Clone, Copy, PartialEq, Eq, Structural)]
pub enum Protocol {
    Icmp,
    Udp,
    Tcp,
}

/// Whether probes are sent on raw sockets, with headers of the tracer's own making.
#[derive(Debug, Clone, Copy, PartialEq, Eq, Structural)]
pub enum PrivilegeMode {
    Privileged,
    Unprivileged,
}

/// Whether extension structures in ICMP error messages are read.
#[derive(Debug, Clone, Copy, PartialEq, Eq, Structural)]
pub enum IcmpExtensionParseMode {
    Enabled,
    Disabled,
}

/// The code of the ICMP message that answered a probe.
#[derive(Debug, Clone, Copy, PartialEq, Eq, Structural)]
pub struct IcmpPacketCode(pub u8);

/// One probe of a trace.
#[derive(Debug, Clone, Copy, PartialEq, Eq)]
pub struct Probe {
    /// The sequence number of the probe.
    pub sequence: Sequence,
    /// The identifier of the trace.
    pub identifier: TraceId,
    /// The source port (UDP and TCP).
    pub src_port: Port,
    /// The destination port (UDP and TCP).
    pub dest_port: Port,
    /// The hop limit with which the probe is sent.
    pub ttl: TimeToLive,
    /// The round to which the probe belongs.
    pub round: RoundId,
    /// When the probe was sent.
    pub sent: SystemTime,
    /// The options of the probe.
    pub flags: Flags,
}

impl Probe {
    /// A probe with the given fields.
    pub fn new(
        sequence: Sequence,
        identifier: TraceId,
        src_port: Port,
        dest_port: Port,
        ttl: TimeToLive,
        round: RoundId,
        sent: SystemTime,
        flags: Flags,
    ) -> (p: Probe)
        ensures
            p == (Probe { sequence, identifier, src_port, dest_port, ttl, round, sent, flags }),
    {
        Probe { sequence, identifier, src_port, dest_port, ttl, round, sent, flags }
    }
}

/// What identifies the echo request that a response answers.
#[derive(Debug, Clone, Copy, PartialEq, Eq, Structural)]
pub struct ResponseSeqIcmp {
    pub identifier: u16,
    pub sequence: u16,
}

impl ResponseSeqIcmp {
    /// The value with the given fields.
    pub fn new(identifier: u16, sequence: u16) -> (r: ResponseSeqIcmp)
        ensures
            r == (ResponseSeqIcmp { identifier, sequence }),
    {
        ResponseSeqIcmp { identifier, sequence }
    }
}

/// What identifies the UDP probe that a response answers.
#[derive(Debug, Clone, Copy, PartialEq, Eq, Structural)]
pub struct ResponseSeqUdp {
    /// The identification field of the probe's IPv4 header.
    pub identifier: u16,
    pub dest_addr: IpAddr,
    pub src_port: u16,
    pub dest_port: u16,
    pub checksum: u16,
    /// The length of the probe's UDP payload.
    pub payload_len: u16,
    pub has_magic: bool,
}

impl ResponseSeqUdp {
    /// The value with the given fields.
    pub fn new(
        identifier: u16,
        dest_addr: IpAddr,
        src_port: u16,
        dest_port: u16,
        checksum: u16,
        payload_len: u16,
        has_magic: bool,
    ) -> (r: ResponseSeqUdp)
        ensures
            r == (ResponseSeqUdp {
                identifier,
                dest_addr,
                src_port,
                dest_port,
                checksum,
                payload_len,
                has_magic,
            }),
    {
        ResponseSeqUdp {
            identifier,
            dest_addr,
            src_port,
            dest_port,
            checksum,
            payload_len,
            has_magic,
        }
    }
}

/// What identifies the TCP probe that a response answers.
#[derive(Debug, Clone, Copy, PartialEq, Eq, Structural)]
pub struct ResponseSeqTcp {
    pub dest_addr: IpAddr,
    pub src_port: u16,
    pub dest_port: u16,
}

impl ResponseSeqTcp {
    /// The value with the given fields.
    pub fn new(dest_addr: IpAddr, src_port: u16, dest_port: u16) -> (r: ResponseSeqTcp)
        ensures
            r == (ResponseSeqTcp { dest_addr, src_port, dest_port }),
    {
        ResponseSeqTcp { dest_addr, src_port, dest_port }
    }
}

/// What identifies the probe that a response answers.
#[derive(Debug, Clone, Copy, PartialEq, Eq, Structural)]
pub enum ResponseSeq {
    Icmp(ResponseSeqIcmp),
    Udp(ResponseSeqUdp),
    Tcp(ResponseSeqTcp),
}

/// What every response carries.
#[derive(Debug, Clone, Copy, PartialEq, Eq)]
pub struct ResponseData {
    /// When the response was received.
    pub recv: SystemTime,
    /// Who sent the response.
    pub addr: IpAddr,
    /// Which probe it answers.
    pub resp_seq: ResponseSeq,
}

impl ResponseData {
    /// The value with the given fields.
    pub fn new(recv: SystemTime, addr: IpAddr, resp_seq: ResponseSeq) -> (r: ResponseData)
        ensures
            r == (ResponseData { recv, addr, resp_seq }),
    {
        ResponseData { recv, addr, resp_seq }
    }
}

/// A response to a probe.
#[derive(Debug, Clone, PartialEq, Eq)]
pub enum Response {
    TimeExceeded(ResponseData, IcmpPacketCode, Option<Extensions>),
    DestinationUnreachable(ResponseData, IcmpPacketCode, Option<Extensions>),
    EchoReply(ResponseData, IcmpPacketCode),
    TcpReply(ResponseData),
    TcpRefused(ResponseData),
}

/// What a response holds, its extension objects as plain values.
pub enum ResponseView {
    TimeExceeded(ResponseData, IcmpPacketCode, Option<Seq<ExtensionView>>),
    DestinationUnreachable(ResponseData, IcmpPacketCode, Option<Seq<ExtensionView>>),
    EchoReply(ResponseData, IcmpPacketCode),
    TcpReply(ResponseData),
    TcpRefused(ResponseData),
}

/// What an optional list of extension objects holds.
pub open spec fn extensions_view(ext: Option<Extensions>) -> Option<Seq<ExtensionView>> {
    match ext {
        Some(e) => Some(e@),
        None => None,
    }
}

impl View for Response {
    type V = ResponseView;

    open spec fn view(&self) -> ResponseView {
        match self {
            Response::TimeExceeded(data, code, ext) => ResponseView::TimeExceeded(
                *data,
                *code,
                extensions_view(*ext),
            ),
            Response::DestinationUnreachable(
                data,
                code,
                ext,
            ) => ResponseView::DestinationUnreachable(*data, *code, extensions_view(*ext)),
            Response::EchoReply(data, code) => ResponseView::EchoReply(*data, *code),
            Response::TcpReply(data) => ResponseView::TcpReply(*data),
            Response::TcpRefused(data) => ResponseView::TcpRefused(*data),
        }
    }
}

} // verus!
