use vstd::prelude::*;
use vstd::slice::slice_subrange;
use std::time::SystemTime;
use crate::addr::{ipv4_addr_at, IpAddr, Ipv4Addr, SocketAddr};
use crate::error::{Error, IoError, IoErrorKind, IoResult};
use crate::extension::{parse_extensions, ExtensionParseError, ExtensionView, Extensions};
use crate::net::socket::{
    asked_since, continues, is_run, judged, lemma_asked_since, processed, request_of,
    run_outcome, Channel, Failure, Request, Socket, SocketCall, SocketError,
};
use crate::packet::icmpv4::{
    echo_request_packet, embedded_datagram, extension_of, make_echo_request_icmp_packet,
    DestinationUnreachablePacket, EchoReplyPacket, EchoRequestPacket, IcmpPacket,
    IcmpTimeExceededCode, IcmpType, TimeExceededPacket,
};
use crate::packet::ipv4::{
    ipv4_packet, ipv4_payload, make_ipv4_packet, IpProtocol, Ipv4Packet, MutableIpv4Packet,
};
use crate::packet::tcp::TcpPacket;
use crate::packet::udp::{
    checksum_payload_swapped, make_udp_packet, swap_checksum_and_payload, udp_packet, UdpPacket,
};
use crate::platform::Ipv4ByteOrder;
use crate::probe::{
    extensions_view, now, IcmpExtensionParseMode, IcmpPacketCode, PrivilegeMode, Probe,
    Protocol, Response, ResponseData, ResponseSeq, ResponseSeqIcmp, ResponseSeqTcp,
    ResponseSeqUdp, ResponseView,
};
use crate::types::{PacketSize, PayloadPattern, Port, TypeOfService};
use crate::wire::{be16, filled, push_all, push_be16, push_filled, u16_at, zero_padded};

verus! {

/// The largest packet that is sent or read.
pub const MAX_PACKET_SIZE: usize = 1024;

/// The smallest packet of an echo probe: an IPv4 header and an ICMP header.
pub const MIN_PACKET_SIZE_ICMP: usize = 28;

/// The smallest packet of a UDP probe: an IPv4 header and a UDP header.
pub const MIN_PACKET_SIZE_UDP: usize = 28;

/// Whether a packet of `size` bytes can be sent as a probe.
pub open spec fn valid_packet_size(size: usize) -> bool {
    28 <= size <= MAX_PACKET_SIZE
}

/// The number of payload bytes in a probe packet of `packet_size` bytes: what is left
/// behind an IPv4 header of 20 bytes and a transport header of 8.
pub open spec fn probe_payload_size(packet_size: usize) -> usize {
    (packet_size - 28) as usize
}

/// The bytes of the packet of an echo probe with a payload of `payload_size` bytes of
/// `pattern`: an IPv4 packet with identification zero and protocol 1 around an echo request
/// that holds the probe's identifier and sequence number.
pub open spec fn echo_probe_bytes(
    probe: Probe,
    src: Ipv4Addr,
    dest: Ipv4Addr,
    payload_size: usize,
    pattern: u8,
    order: Ipv4ByteOrder,
) -> Seq<u8> {
    ipv4_packet(
        order,
        1,
        src,
        dest,
        probe.ttl.0,
        0,
        echo_request_packet(probe.identifier.0, probe.sequence.0, filled(pattern, payload_size)),
    )
}

/// The UDP message of a probe. With the Paris option its payload is the two bytes of the
/// sequence number, and the checksum computed over that message changes places with them:
/// the checksum field holds the sequence number and the payload the checksum. Without the
/// option it is a message around `payload` with its checksum in the checksum field.
pub open spec fn udp_probe_message(probe: Probe, src: Ipv4Addr, dest: Ipv4Addr, payload: Seq<u8>)
    -> Seq<u8> {
    if probe.flags.paris() {
        checksum_payload_swapped(
            udp_packet(src, dest, probe.src_port.0, probe.dest_port.0, be16(probe.sequence.0)),
        )
    } else {
        udp_packet(src, dest, probe.src_port.0, probe.dest_port.0, payload)
    }
}

/// The bytes of the packet of a UDP probe sent on a raw socket: an IPv4 packet with the
/// trace identifier as its identification and protocol 17 around the probe's UDP message.
pub open spec fn udp_probe_bytes(
    probe: Probe,
    src: Ipv4Addr,
    dest: Ipv4Addr,
    payload: Seq<u8>,
    order: Ipv4ByteOrder,
) -> Seq<u8> {
    ipv4_packet(
        order,
        17,
        src,
        dest,
        probe.ttl.0,
        probe.identifier.0,
        udp_probe_message(probe, src, dest, payload),
    )
}

/// Judges the result of binding or connecting a socket.
pub fn process_result(res: IoResult<()>) -> (r: Result<(), Error>)
    ensures
        r == processed(res),
{
    match res {
        Ok(()) => Ok(()),
        Err(err) => match err.kind {
            IoErrorKind::InProgress => Ok(()),
            _ => Err(Error::IoError(err)),
        },
    }
}

/// The number of payload bytes in an echo probe's packet of `packet_size` bytes.
pub fn icmp_payload_size(packet_size: usize) -> (r: usize)
    requires
        packet_size >= MIN_PACKET_SIZE_ICMP,
    ensures
        r == probe_payload_size(packet_size),
{
    packet_size - 8 - 20
}

/// The number of payload bytes in a UDP probe's packet of `packet_size` bytes.
pub fn udp_payload_size(packet_size: usize) -> (r: usize)
    requires
        packet_size >= MIN_PACKET_SIZE_UDP,
    ensures
        r == probe_payload_size(packet_size),
{
    packet_size - 8 - 20
}

/// Builds the packet of an echo probe, or refuses a size outside 28 to 1024 bytes.
pub fn make_icmp_probe_packet(
    probe: &Probe,
    src_addr: Ipv4Addr,
    dest_addr: Ipv4Addr,
    packet_size: PacketSize,
    payload_pattern: PayloadPattern,
    ipv4_byte_order: Ipv4ByteOrder,
) -> (r: Result<MutableIpv4Packet, Error>)
    ensures
        valid_packet_size(packet_size.spec_size()) ==> r is Ok && r->Ok_0.bytes()
            == echo_probe_bytes(
            *probe,
            src_addr,
            dest_addr,
            probe_payload_size(packet_size.spec_size()),
            payload_pattern.0,
            ipv4_byte_order,
        ),
        !valid_packet_size(packet_size.spec_size()) ==> r == Err::<MutableIpv4Packet, Error>(
            Error::InvalidPacketSize(packet_size.spec_size()),
        ),
{
    let size = packet_size.size();
    if size < MIN_PACKET_SIZE_ICMP || size > MAX_PACKET_SIZE {
        return Err(Error::InvalidPacketSize(size));
    }
    let echo_request = make_echo_request_icmp_packet(
        probe.identifier,
        probe.sequence,
        icmp_payload_size(size),
        payload_pattern,
    )?;
    make_ipv4_packet(
        ipv4_byte_order,
        IpProtocol::Icmp,
        src_addr,
        dest_addr,
        probe.ttl.0,
        0,
        echo_request.packet(),
    )
}

/// Sends an echo probe. A size outside 28 to 1024 bytes is refused and nothing is asked of
/// the socket. Else the socket is asked once, to send the probe's packet to `dest_addr`
/// with port zero, and the result is `Ok` where it did and else its failure.
pub fn dispatch_icmp_probe<S: Socket>(
    icmp_send_socket: &mut Channel<S>,
    probe: Probe,
    src_addr: Ipv4Addr,
    dest_addr: Ipv4Addr,
    packet_size: PacketSize,
    payload_pattern: PayloadPattern,
    ipv4_byte_order: Ipv4ByteOrder,
) -> (r: Result<(), Error>)
    ensures
        !valid_packet_size(packet_size.spec_size()) ==> r == Err::<(), Error>(
            Error::InvalidPacketSize(packet_size.spec_size()),
        ) && final(icmp_send_socket).calls() == old(icmp_send_socket).calls(),
        valid_packet_size(packet_size.spec_size()) ==> {
            &&& continues(old(icmp_send_socket).calls(), final(icmp_send_socket).calls())
            &&& is_run(
                seq![
                    Request::SendTo(
                        echo_probe_bytes(
                            probe,
                            src_addr,
                            dest_addr,
                            probe_payload_size(packet_size.spec_size()),
                            payload_pattern.0,
                            ipv4_byte_order,
                        ),
                        SocketAddr { ip: IpAddr::V4(dest_addr), port: 0 },
                    ),
                ],
                asked_since(old(icmp_send_socket).calls(), final(icmp_send_socket).calls()),
            )
            &&& r == run_outcome(
                asked_since(old(icmp_send_socket).calls(), final(icmp_send_socket).calls()),
            )
        },
{
    let ipv4 = make_icmp_probe_packet(
        &probe,
        src_addr,
        dest_addr,
        packet_size,
        payload_pattern,
        ipv4_byte_order,
    )?;
    let remote_addr = SocketAddr::new(IpAddr::V4(dest_addr), 0);
    let answer = icmp_send_socket.send_to(ipv4.packet(), remote_addr);
    proof {
        let asked = seq![SocketCall::SendTo(ipv4.bytes(), remote_addr, answer)];
        assert(icmp_send_socket.calls() =~= old(icmp_send_socket).calls() + asked);
        lemma_asked_since(old(icmp_send_socket).calls(), asked);
    }
    match answer {
        Ok(()) => Ok(()),
        Err(e) => Err(Error::IoError(e)),
    }
}

/// Builds the packet of a UDP probe for a raw socket.
pub fn make_udp_probe_packet(
    probe: &Probe,
    src_addr: Ipv4Addr,
    dest_addr: Ipv4Addr,
    payload: &[u8],
    ipv4_byte_order: Ipv4ByteOrder,
) -> (r: Result<MutableIpv4Packet, Error>)
    requires
        payload@.len() <= 996,
    ensures
        r is Ok,
        r->Ok_0.bytes() == udp_probe_bytes(*probe, src_addr, dest_addr, payload@, ipv4_byte_order),
{
    let mut payload_paris: Vec<u8> = Vec::new();
    push_be16(&mut payload_paris, probe.sequence.0);
    assert(payload_paris@ =~= be16(probe.sequence.0));
    let payload = if probe.flags.has_paris_checksum() {
        payload_paris.as_slice()
    } else {
        payload
    };
    let mut udp = make_udp_packet(
        src_addr,
        dest_addr,
        probe.src_port.0,
        probe.dest_port.0,
        payload,
    )?;
    if probe.flags.has_paris_checksum() {
        swap_checksum_and_payload(&mut udp);
    }
    make_ipv4_packet(
        ipv4_byte_order,
        IpProtocol::Udp,
        src_addr,
        dest_addr,
        probe.ttl.0,
        probe.identifier.0,
        udp.packet(),
    )
}

/// Sends a UDP probe on a raw socket: the socket is asked once, to send the probe's packet
/// to `dest_addr` and the probe's destination port, and the result is `Ok` where it did
/// and else its failure.
pub fn dispatch_udp_probe_raw<S: Socket>(
    raw_send_socket: &mut Channel<S>,
    probe: Probe,
    src_addr: Ipv4Addr,
    dest_addr: Ipv4Addr,
    payload: &[u8],
    ipv4_byte_order: Ipv4ByteOrder,
) -> (r: Result<(), Error>)
    requires
        payload@.len() <= 996,
    ensures
        continues(old(raw_send_socket).calls(), final(raw_send_socket).calls()),
        is_run(
            seq![
                Request::SendTo(
                    udp_probe_bytes(probe, src_addr, dest_addr, payload@, ipv4_byte_order),
                    SocketAddr { ip: IpAddr::V4(dest_addr), port: probe.dest_port.0 },
                ),
            ],
            asked_since(old(raw_send_socket).calls(), final(raw_send_socket).calls()),
        ),
        r == run_outcome(
            asked_since(old(raw_send_socket).calls(), final(raw_send_socket).calls()),
        ),
{
    let ipv4 = make_udp_probe_packet(&probe, src_addr, dest_addr, payload, ipv4_byte_order)?;
    let remote_addr = SocketAddr::new(IpAddr::V4(dest_addr), probe.dest_port.0);
    let answer = raw_send_socket.send_to(ipv4.packet(), remote_addr);
    proof {
        let asked = seq![SocketCall::SendTo(ipv4.bytes(), remote_addr, answer)];
        assert(raw_send_socket.calls() =~= old(raw_send_socket).calls() + asked);
        lemma_asked_since(old(raw_send_socket).calls(), asked);
    }
    match answer {
        Ok(()) => Ok(()),
        Err(e) => Err(Error::IoError(e)),
    }
}

/// What is asked of the datagram socket of a UDP probe: to open, to bind to `src` and the
/// probe's source port, to send with the probe's hop limit, and to send `payload` to `dest`
/// and the probe's destination port.
pub open spec fn datagram_plan(probe: Probe, src: Ipv4Addr, dest: Ipv4Addr, payload: Seq<u8>)
    -> Seq<Request> {
    seq![
        Request::Open,
        Request::Bind(SocketAddr { ip: IpAddr::V4(src), port: probe.src_port.0 }),
        Request::SetTtl(probe.ttl.0 as u32),
        Request::SendTo(payload, SocketAddr { ip: IpAddr::V4(dest), port: probe.dest_port.0 }),
    ]
}

/// What is asked of the socket of a TCP probe: to open, to bind to `src` and the probe's
/// source port, to send with the probe's hop limit and with the type of service `tos`, and
/// to connect to `dest` and the probe's destination port.
pub open spec fn tcp_plan(probe: Probe, src: Ipv4Addr, dest: Ipv4Addr, tos: TypeOfService)
    -> Seq<Request> {
    seq![
        Request::Open,
        Request::Bind(SocketAddr { ip: IpAddr::V4(src), port: probe.src_port.0 }),
        Request::SetTtl(probe.ttl.0 as u32),
        Request::SetTos(tos.0 as u32),
        Request::Connect(SocketAddr { ip: IpAddr::V4(dest), port: probe.dest_port.0 }),
    ]
}

/// Where the datagram socket of a UDP probe could be opened and answered every request with
/// success, it was asked all of the plan: to bind to the source address and port, to send with
/// the probe's hop limit, and to send the payload to the destination; and the run comes to
/// success.
pub proof fn lemma_datagram_run_succeeds(
    probe: Probe,
    src: Ipv4Addr,
    dest: Ipv4Addr,
    payload: Seq<u8>,
    record: Seq<SocketCall>,
)
    requires
        is_run(datagram_plan(probe, src, dest, payload), record),
        forall|i: int| 0 <= i < record.len() ==> judged(#[trigger] record[i]) is Ok,
    ensures
        run_outcome(record) == Ok::<(), Error>(()),
        record.len() == 4,
        record[0] is Opened,
        record[1] is Bind,
        record[1]->Bind_0 == (SocketAddr { ip: IpAddr::V4(src), port: probe.src_port.0 }),
        record[2] is SetTtl,
        record[2]->SetTtl_0 == probe.ttl.0,
        record[3] is SendTo,
        record[3]->SendTo_0 == payload,
        record[3]->SendTo_1 == (SocketAddr { ip: IpAddr::V4(dest), port: probe.dest_port.0 }),
{
    let plan = datagram_plan(probe, src, dest, payload);
    if record.len() < 4 {
        assert(judged(record[record.len() - 1]) is Ok);
    }
    assert(request_of(record[0]) == plan[0]);
    assert(request_of(record[1]) == plan[1]);
    assert(request_of(record[2]) == plan[2]);
    assert(request_of(record[3]) == plan[3]);
    assert(judged(record[3]) is Ok);
}

/// Where the socket of a TCP probe could be opened and answered every request with success,
/// a connect still in progress counting as such, it was asked all of the plan: to bind, to
/// send with the probe's hop limit and the type of service, and to connect to the
/// destination; and the run comes to success.
pub proof fn lemma_tcp_run_succeeds(
    probe: Probe,
    src: Ipv4Addr,
    dest: Ipv4Addr,
    tos: TypeOfService,
    record: Seq<SocketCall>,
)
    requires
        is_run(tcp_plan(probe, src, dest, tos), record),
        forall|i: int| 0 <= i < record.len() ==> judged(#[trigger] record[i]) is Ok,
    ensures
        run_outcome(record) == Ok::<(), Error>(()),
        record.len() == 5,
        record[0] is Opened,
        record[1] is Bind,
        record[1]->Bind_0 == (SocketAddr { ip: IpAddr::V4(src), port: probe.src_port.0 }),
        record[2] is SetTtl,
        record[2]->SetTtl_0 == probe.ttl.0,
        record[3] is SetTos,
        record[3]->SetTos_0 == tos.0,
        record[4] is Connect,
        record[4]->Connect_0 == (SocketAddr { ip: IpAddr::V4(dest), port: probe.dest_port.0 }),
{
    let plan = tcp_plan(probe, src, dest, tos);
    if record.len() < 5 {
        assert(judged(record[record.len() - 1]) is Ok);
    }
    assert(request_of(record[0]) == plan[0]);
    assert(request_of(record[1]) == plan[1]);
    assert(request_of(record[2]) == plan[2]);
    assert(request_of(record[3]) == plan[3]);
    assert(request_of(record[4]) == plan[4]);
    assert(judged(record[4]) is Ok);
}

/// The channel of the socket that a dispatch opened, or failed to open.
pub open spec fn dispatched<S: Socket>(r: Result<Channel<S>, Failure<S>>) -> Channel<S> {
    match r {
        Ok(channel) => channel,
        Err(failure) => failure.channel,
    }
}

/// What a dispatch that opens a socket came to.
pub open spec fn dispatch_result<S: Socket>(r: Result<Channel<S>, Failure<S>>) -> Result<
    (),
    Error,
> {
    match r {
        Ok(_) => Ok(()),
        Err(failure) => Err(failure.error),
    }
}

/// Sends a UDP probe on a datagram socket of its own: a socket is opened, bound to
/// `src_addr` and the probe's source port, set to the probe's hop limit, and handed
/// `payload`, addressed to `dest_addr` and the probe's destination port. The first of these
/// requests that fails ends the run and is the failure reported; where none fails the
/// channel of the socket comes back.
pub fn dispatch_udp_probe_non_raw<S: Socket>(
    probe: Probe,
    src_addr: Ipv4Addr,
    dest_addr: Ipv4Addr,
    payload: &[u8],
) -> (r: Result<Channel<S>, Failure<S>>)
    ensures
        is_run(datagram_plan(probe, src_addr, dest_addr, payload@), dispatched(r).calls()),
        dispatch_result(r) == run_outcome(dispatched(r).calls()),
        r is Ok ==> r->Ok_0.is_open(),
{
    let local_addr = SocketAddr::new(IpAddr::V4(src_addr), probe.src_port.0);
    let remote_addr = SocketAddr::new(IpAddr::V4(dest_addr), probe.dest_port.0);
    let mut socket = Channel::<S>::open_udp_send_socket_ipv4(false);
    let result = match socket.opened() {
        Err(e) => Err(Error::IoError(e)),
        Ok(()) => match process_result(socket.bind(local_addr)) {
            Err(e) => Err(e),
            Ok(()) => match socket.set_ttl(probe.ttl.to_u32()) {
                Err(e) => Err(Error::IoError(e)),
                Ok(()) => match socket.send_to(payload, remote_addr) {
                    Err(e) => Err(Error::IoError(e)),
                    Ok(()) => Ok(()),
                },
            },
        },
    };
    proof {
        assert(is_run(datagram_plan(probe, src_addr, dest_addr, payload@), socket.calls()));
        assert(result == run_outcome(socket.calls()));
    }
    match result {
        Ok(()) => Ok(socket),
        Err(error) => Err(Failure { error, channel: socket }),
    }
}

/// Sends a UDP probe whose packet, headers included, has `packet_size` bytes.
///
/// A size outside 28 to 1024 bytes is refused and nothing is asked of any socket. In
/// privileged mode `raw_send_socket` is asked once, to send the probe's packet to
/// `dest_addr` and the probe's destination port. In unprivileged mode `raw_send_socket` is
/// asked nothing: a datagram socket is opened beside it, bound to `src_addr` and the
/// probe's source port, set to the probe's hop limit, handed the payload of the pattern, and
/// closed; its record is kept with that of `raw_send_socket`. Either way the result is `Ok`
/// where every request succeeded, and else the failure of the first that did not.
pub fn dispatch_udp_probe<S: Socket>(
    raw_send_socket: &mut Channel<S>,
    probe: Probe,
    src_addr: Ipv4Addr,
    dest_addr: Ipv4Addr,
    privilege_mode: PrivilegeMode,
    packet_size: PacketSize,
    payload_pattern: PayloadPattern,
    ipv4_byte_order: Ipv4ByteOrder,
) -> (r: Result<(), Error>)
    ensures
        !valid_packet_size(packet_size.spec_size()) ==> r == Err::<(), Error>(
            Error::InvalidPacketSize(packet_size.spec_size()),
        ) && final(raw_send_socket).calls() == old(raw_send_socket).calls(),
        valid_packet_size(packet_size.spec_size()) && privilege_mode
            == PrivilegeMode::Privileged ==> {
            &&& continues(old(raw_send_socket).calls(), final(raw_send_socket).calls())
            &&& is_run(
                seq![
                    Request::SendTo(
                        udp_probe_bytes(
                            probe,
                            src_addr,
                            dest_addr,
                            filled(payload_pattern.0, probe_payload_size(packet_size.spec_size())),
                            ipv4_byte_order,
                        ),
                        SocketAddr { ip: IpAddr::V4(dest_addr), port: probe.dest_port.0 },
                    ),
                ],
                asked_since(old(raw_send_socket).calls(), final(raw_send_socket).calls()),
            )
            &&& r == run_outcome(
                asked_since(old(raw_send_socket).calls(), final(raw_send_socket).calls()),
            )
        },
        valid_packet_size(packet_size.spec_size()) && privilege_mode
            == PrivilegeMode::Unprivileged ==> {
            &&& final(raw_send_socket).calls().len() == old(raw_send_socket).calls().len() + 1
            &&& final(raw_send_socket).calls().drop_last() == old(raw_send_socket).calls()
            &&& final(raw_send_socket).calls().last() is Beside
            &&& is_run(
                datagram_plan(
                    probe,
                    src_addr,
                    dest_addr,
                    filled(payload_pattern.0, probe_payload_size(packet_size.spec_size())),
                ),
                final(raw_send_socket).calls().last()->Beside_0,
            )
            &&& r == run_outcome(final(raw_send_socket).calls().last()->Beside_0)
        },
{
    let size = packet_size.size();
    if size < MIN_PACKET_SIZE_UDP || size > MAX_PACKET_SIZE {
        return Err(Error::InvalidPacketSize(size));
    }
    let mut payload: Vec<u8> = Vec::new();
    push_filled(&mut payload, payload_pattern.0, udp_payload_size(size));
    assert(payload@ =~= filled(payload_pattern.0, probe_payload_size(size)));
    match privilege_mode {
        PrivilegeMode::Privileged => dispatch_udp_probe_raw(
            raw_send_socket,
            probe,
            src_addr,
            dest_addr,
            payload.as_slice(),
            ipv4_byte_order,
        ),
        PrivilegeMode::Unprivileged => {
            let sent = dispatch_udp_probe_non_raw::<S>(
                probe,
                src_addr,
                dest_addr,
                payload.as_slice(),
            );
            proof {
                assert(old(raw_send_socket).calls().push(
                    SocketCall::Beside(dispatched(sent).calls()),
                ).drop_last() =~= old(raw_send_socket).calls());
            }
            match sent {
                Ok(socket) => {
                    raw_send_socket.close(socket);
                    Ok(())
                },
                Err(failure) => {
                    raw_send_socket.close(failure.channel);
                    Err(failure.error)
                },
            }
        },
    }
}

/// Starts a TCP probe: a non-blocking stream socket is opened, bound to `src_addr` and the
/// probe's source port, set to the probe's hop limit and to the type of service `tos`, and
/// asked to connect to `dest_addr` and the probe's destination port; a connect that is
/// still in progress counts as done. The first of these requests that fails ends the run
/// and is the failure reported; where none fails the channel of the socket comes back
/// while it connects.
pub fn dispatch_tcp_probe<S: Socket>(
    probe: &Probe,
    src_addr: Ipv4Addr,
    dest_addr: Ipv4Addr,
    tos: TypeOfService,
) -> (r: Result<Channel<S>, Failure<S>>)
    ensures
        is_run(tcp_plan(*probe, src_addr, dest_addr, tos), dispatched(r).calls()),
        dispatch_result(r) == run_outcome(dispatched(r).calls()),
        r is Ok ==> r->Ok_0.is_open(),
{
    let mut socket = Channel::<S>::open_stream_socket_ipv4();
    let local_addr = SocketAddr::new(IpAddr::V4(src_addr), probe.src_port.0);
    let remote_addr = SocketAddr::new(IpAddr::V4(dest_addr), probe.dest_port.0);
    let result = match socket.opened() {
        Err(e) => Err(Error::IoError(e)),
        Ok(()) => match process_result(socket.bind(local_addr)) {
            Err(e) => Err(e),
            Ok(()) => match socket.set_ttl(probe.ttl.to_u32()) {
                Err(e) => Err(Error::IoError(e)),
                Ok(()) => match socket.set_tos(tos.to_u32()) {
                    Err(e) => Err(Error::IoError(e)),
                    Ok(()) => process_result(socket.connect(remote_addr)),
                },
            },
        },
    };
    proof {
        assert(is_run(tcp_plan(*probe, src_addr, dest_addr, tos), socket.calls()));
        assert(result == run_outcome(socket.calls()));
    }
    match result {
        Ok(()) => Ok(socket),
        Err(error) => Err(Failure { error, channel: socket }),
    }
}

/// The number that stands for `protocol` in the protocol field of an IPv4 header.
pub open spec fn protocol_number(protocol: Protocol) -> u8 {
    match protocol {
        Protocol::Icmp => 1,
        Protocol::Udp => 17,
        Protocol::Tcp => 6,
    }
}

/// What identifies the echo probe whose echo request or reply is `message`.
pub open spec fn echo_seq(message: Seq<u8>) -> ResponseSeq {
    ResponseSeq::Icmp(
        ResponseSeqIcmp { identifier: u16_at(message, 4), sequence: u16_at(message, 6) },
    )
}

/// The length of the payload of the UDP message `message`: its length field less the eight
/// bytes of the header.
pub open spec fn udp_payload_len(message: Seq<u8>) -> u16 {
    (u16_at(message, 4) - 8) as u16
}

/// What identifies the UDP probe whose packet starts with `ip`.
pub open spec fn udp_seq(ip: Seq<u8>) -> ResponseSeq {
    let message = ipv4_payload(ip);
    ResponseSeq::Udp(
        ResponseSeqUdp {
            identifier: u16_at(ip, 4),
            dest_addr: IpAddr::V4(ipv4_addr_at(ip, 16)),
            src_port: u16_at(message, 0),
            dest_port: u16_at(message, 2),
            checksum: u16_at(message, 6),
            payload_len: udp_payload_len(message),
            has_magic: false,
        },
    )
}

/// What identifies the TCP probe whose packet starts with `ip`. The ports are read from a
/// TCP header that is made up to its 20 bytes with zeros where less of it came back.
pub open spec fn tcp_seq(ip: Seq<u8>) -> ResponseSeq {
    let segment = zero_padded(ipv4_payload(ip), 20);
    ResponseSeq::Tcp(
        ResponseSeqTcp {
            dest_addr: IpAddr::V4(ipv4_addr_at(ip, 16)),
            src_port: u16_at(segment, 0),
            dest_port: u16_at(segment, 2),
        },
    )
}

/// What identifies the probe whose packet starts with the at least 20 bytes `ip`, for a trace
/// of `protocol`. There is none where the packet is of another protocol, where an echo
/// request or a UDP message is shorter than its header, or where a UDP message gives itself a
/// length below that of its header.
pub open spec fn probe_resp_seq(protocol: Protocol, ip: Seq<u8>) -> Option<ResponseSeq> {
    let message = ipv4_payload(ip);
    if protocol == Protocol::Icmp && ip[9] == 1 {
        if message.len() >= 8 {
            Some(echo_seq(message))
        } else {
            None
        }
    } else if protocol == Protocol::Udp && ip[9] == 17 {
        if message.len() >= 8 && u16_at(message, 4) >= 8 {
            Some(udp_seq(ip))
        } else {
            None
        }
    } else if protocol == Protocol::Tcp && ip[9] == 6 {
        Some(tcp_seq(ip))
    } else {
        None
    }
}

/// The embedded datagram in the time-exceeded message `message`: all that stands behind the
/// header where extensions are not read, and else what stands before the extension structure.
pub open spec fn time_exceeded_datagram(mode: IcmpExtensionParseMode, message: Seq<u8>) -> Seq<
    u8,
> {
    match mode {
        IcmpExtensionParseMode::Enabled => embedded_datagram(message[5], message.skip(8)),
        IcmpExtensionParseMode::Disabled => message.skip(8),
    }
}

/// The extension objects of the ICMP error message `message`: none where extensions are not
/// read or the message has no sound extension structure; an error where it has one and an
/// object in it is malformed.
pub open spec fn message_extensions(mode: IcmpExtensionParseMode, message: Seq<u8>) -> Result<
    Option<Seq<ExtensionView>>,
    ExtensionParseError,
> {
    match mode {
        IcmpExtensionParseMode::Disabled => Ok(None),
        IcmpExtensionParseMode::Enabled => match extension_of(message[5], message.skip(8)) {
            None => Ok(None),
            Some(ext) => match parse_extensions(ext) {
                Ok(objects) => Ok(Some(objects)),
                Err(e) => Err(e),
            },
        },
    }
}

/// What an ICMP error message tells of the probe that it answers: which probe it was and
/// the message's extension objects. It tells nothing where the embedded datagram is shorter
/// than an IPv4 header, where an extension object is malformed, or where the datagram
/// identifies no probe of `protocol`.
pub open spec fn error_message_outcome(
    protocol: Protocol,
    datagram: Seq<u8>,
    extensions: Result<Option<Seq<ExtensionView>>, ExtensionParseError>,
) -> Option<(ResponseSeq, Option<Seq<ExtensionView>>)> {
    if datagram.len() < 20 {
        None
    } else {
        match (extensions, probe_resp_seq(protocol, datagram)) {
            (Ok(ext), Some(resp_seq)) => Some((resp_seq, ext)),
            _ => None,
        }
    }
}

/// The response that the packet `ip`, received at `recv`, is to a probe of a trace of
/// `protocol`, if it is one.
///
/// A packet shorter than an IPv4 header, or with a payload shorter than an ICMP header, is
/// none. An echo reply is a response only in an ICMP trace. A time-exceeded message is one
/// only with code 0, and, like a destination-unreachable message, only where its embedded
/// datagram identifies a probe of `protocol`. Any other message is none. The response comes
/// from the packet's source address and carries the message's code.
pub open spec fn probe_response(
    protocol: Protocol,
    mode: IcmpExtensionParseMode,
    ip: Seq<u8>,
    recv: SystemTime,
) -> Option<ResponseView> {
    let message = ipv4_payload(ip);
    if ip.len() < 20 || message.len() < 8 {
        None
    } else {
        let addr = IpAddr::V4(ipv4_addr_at(ip, 12));
        let code = IcmpPacketCode(message[1]);
        if message[0] == 11 {
            if message[1] == 0 {
                match error_message_outcome(
                    protocol,
                    time_exceeded_datagram(mode, message),
                    message_extensions(mode, message),
                ) {
                    Some((resp_seq, ext)) => Some(
                        ResponseView::TimeExceeded(ResponseData { recv, addr, resp_seq }, code, ext),
                    ),
                    None => None,
                }
            } else {
                None
            }
        } else if message[0] == 3 {
            match error_message_outcome(
                protocol,
                embedded_datagram(message[5], message.skip(8)),
                message_extensions(mode, message),
            ) {
                Some((resp_seq, ext)) => Some(
                    ResponseView::DestinationUnreachable(
                        ResponseData { recv, addr, resp_seq },
                        code,
                        ext,
                    ),
                ),
                None => None,
            }
        } else if message[0] == 0 {
            if protocol == Protocol::Icmp {
                Some(
                    ResponseView::EchoReply(
                        ResponseData { recv, addr, resp_seq: echo_seq(message) },
                        code,
                    ),
                )
            } else {
                None
            }
        } else {
            None
        }
    }
}

/// What an optional response holds.
pub open spec fn response_view(r: Option<Response>) -> Option<ResponseView> {
    match r {
        Some(response) => Some(response@),
        None => None,
    }
}

/// Views the payload of `ipv4` as the echo request of a probe.
pub fn extract_echo_request<'a>(ipv4: &Ipv4Packet<'a>) -> (r: Result<EchoRequestPacket<'a>, Error>)
    ensures
        ipv4_payload(ipv4.bytes()).len() >= 8 ==> r is Ok && r->Ok_0.bytes() == ipv4_payload(
            ipv4.bytes(),
        ),
        ipv4_payload(ipv4.bytes()).len() < 8 ==> r is Err,
{
    EchoRequestPacket::new_view(ipv4.payload())
}

/// Reads, from the UDP probe's packet `ipv4`, the source port, the destination port, the
/// checksum, the identification and the payload length.
pub fn extract_udp_packet(ipv4: &Ipv4Packet<'_>) -> (r: Result<(u16, u16, u16, u16, u16), Error>)
    ensures
        ({
            let message = ipv4_payload(ipv4.bytes());
            if message.len() >= 8 && u16_at(message, 4) >= 8 {
                r == Ok::<(u16, u16, u16, u16, u16), Error>(
                    (
                        u16_at(message, 0),
                        u16_at(message, 2),
                        u16_at(message, 6),
                        u16_at(ipv4.bytes(), 4),
                        udp_payload_len(message),
                    ),
                )
            } else {
                r == Err::<(u16, u16, u16, u16, u16), Error>(Error::PacketTooSmall)
            }
        }),
{
    let nested = match UdpPacket::new_view(ipv4.payload()) {
        Ok(nested) => nested,
        Err(e) => {
            return Err(e);
        },
    };
    let length = nested.get_length();
    if length < 8 {
        return Err(Error::PacketTooSmall);
    }
    Ok(
        (
            nested.get_source(),
            nested.get_destination(),
            nested.get_checksum(),
            ipv4.get_identification(),
            length - 8,
        ),
    )
}

/// Reads the source and destination ports from the TCP probe's packet `ipv4`, of whose TCP
/// header as little as nothing may have come back: what is missing of its 20 bytes counts as
/// zeros.
pub fn extract_tcp_packet(ipv4: &Ipv4Packet<'_>) -> (r: (u16, u16))
    ensures
        r.0 == u16_at(zero_padded(ipv4_payload(ipv4.bytes()), 20), 0),
        r.1 == u16_at(zero_padded(ipv4_payload(ipv4.bytes()), 20), 2),
{
    let nested_tcp = ipv4.payload();
    let mut buf: Vec<u8> = Vec::new();
    push_all(&mut buf, nested_tcp);
    while buf.len() < 20
        invariant
            nested_tcp@.len() <= buf@.len(),
            buf@.len() <= 20 || buf@ == nested_tcp@,
            forall|i: int| 0 <= i < nested_tcp@.len() ==> buf@[i] == nested_tcp@[i],
            forall|i: int| nested_tcp@.len() <= i < buf@.len() ==> buf@[i] == 0,
        decreases 20 - buf@.len(),
    {
        buf.push(0);
    }
    assert(buf@ =~= zero_padded(nested_tcp@, 20));
    match TcpPacket::new_view(buf.as_slice()) {
        Ok(tcp_packet) => (tcp_packet.get_source(), tcp_packet.get_destination()),
        Err(_) => (0, 0),
    }
}

/// Finds which probe of a trace of `protocol` the packet `ipv4` is, if it is one.
pub fn extract_probe_resp_seq(ipv4: &Ipv4Packet<'_>, protocol: Protocol) -> (r: Option<
    ResponseSeq,
>)
    ensures
        r == probe_resp_seq(protocol, ipv4.bytes()),
{
    match (protocol, ipv4.get_protocol()) {
        (Protocol::Icmp, IpProtocol::Icmp) => {
            match extract_echo_request(ipv4) {
                Ok(echo_request) => {
                    let identifier = echo_request.get_identifier();
                    let sequence = echo_request.get_sequence();
                    Some(ResponseSeq::Icmp(ResponseSeqIcmp::new(identifier, sequence)))
                },
                Err(_) => None,
            }
        },
        (Protocol::Udp, IpProtocol::Udp) => {
            match extract_udp_packet(ipv4) {
                Ok((src_port, dest_port, checksum, identifier, payload_length)) => Some(
                    ResponseSeq::Udp(
                        ResponseSeqUdp::new(
                            identifier,
                            IpAddr::V4(ipv4.get_destination()),
                            src_port,
                            dest_port,
                            checksum,
                            payload_length,
                            false,
                        ),
                    ),
                ),
                Err(_) => None,
            }
        },
        (Protocol::Tcp, IpProtocol::Tcp) => {
            let (src_port, dest_port) = extract_tcp_packet(ipv4);
            Some(
                ResponseSeq::Tcp(
                    ResponseSeqTcp::new(IpAddr::V4(ipv4.get_destination()), src_port, dest_port),
                ),
            )
        },
        _ => None,
    }
}

/// Reads the extension objects of an ICMP error message from its extension structure, if
/// it has one and extensions are read.
fn read_extensions(mode: IcmpExtensionParseMode, extension: Option<&[u8]>) -> (r: Result<
    Option<Extensions>,
    ExtensionParseError,
>)
    ensures
        ({
            let expected: Result<Option<Seq<ExtensionView>>, ExtensionParseError> = match mode {
                IcmpExtensionParseMode::Disabled => Ok(None),
                IcmpExtensionParseMode::Enabled => match extension {
                    None => Ok(None),
                    Some(ext) => match parse_extensions(ext@) {
                        Ok(objects) => Ok(Some(objects)),
                        Err(e) => Err(e),
                    },
                },
            };
            match r {
                Ok(ext) => expected == Ok::<Option<Seq<ExtensionView>>, ExtensionParseError>(
                    extensions_view(ext),
                ),
                Err(e) => expected == Err::<Option<Seq<ExtensionView>>, ExtensionParseError>(e),
            }
        }),
{
    match mode {
        IcmpExtensionParseMode::Disabled => Ok(None),
        IcmpExtensionParseMode::Enabled => match extension {
            None => Ok(None),
            Some(ext) => match Extensions::try_from(ext) {
                Ok(objects) => Ok(Some(objects)),
                Err(e) => Err(e),
            },
        },
    }
}

/// Finds what the ICMP error message with the embedded datagram `datagram` tells of the
/// probe that it answers.
fn read_error_message(
    protocol: Protocol,
    datagram: &[u8],
    extensions: Result<Option<Extensions>, ExtensionParseError>,
) -> (r: Option<(ResponseSeq, Option<Extensions>)>)
    ensures
        ({
            let ext: Result<Option<Seq<ExtensionView>>, ExtensionParseError> = match extensions {
                Ok(e) => Ok(extensions_view(e)),
                Err(e) => Err(e),
            };
            match r {
                Some((resp_seq, e)) => error_message_outcome(protocol, datagram@, ext) == Some(
                    (resp_seq, extensions_view(e)),
                ),
                None => error_message_outcome(protocol, datagram@, ext) is None,
            }
        }),
{
    let nested_ipv4 = match Ipv4Packet::new_view(datagram) {
        Ok(nested_ipv4) => nested_ipv4,
        Err(_) => {
            return None;
        },
    };
    let ext = match extensions {
        Ok(ext) => ext,
        Err(_) => {
            return None;
        },
    };
    match extract_probe_resp_seq(&nested_ipv4, protocol) {
        Some(resp_seq) => Some((resp_seq, ext)),
        None => None,
    }
}

/// Finds the response that the packet `ipv4`, received at `recv`, is to a probe of a trace
/// of `protocol`, if it is one.
pub fn extract_probe_resp_at(
    protocol: Protocol,
    icmp_extension_mode: IcmpExtensionParseMode,
    ipv4: &Ipv4Packet<'_>,
    recv: SystemTime,
) -> (r: Option<Response>)
    ensures
        response_view(r) == probe_response(protocol, icmp_extension_mode, ipv4.bytes(), recv),
{
    let src = IpAddr::V4(ipv4.get_source());
    let icmp_v4 = match IcmpPacket::new_view(ipv4.payload()) {
        Ok(icmp_v4) => icmp_v4,
        Err(_) => {
            return None;
        },
    };
    let icmp_type = icmp_v4.get_icmp_type();
    let icmp_code = icmp_v4.get_icmp_code();
    match icmp_type {
        IcmpType::TimeExceeded => {
            match IcmpTimeExceededCode::from_code(icmp_code) {
                IcmpTimeExceededCode::TtlExpired => {
                    let packet = match TimeExceededPacket::new_view(icmp_v4.packet()) {
                        Ok(packet) => packet,
                        Err(_) => {
                            return None;
                        },
                    };
                    let datagram = match icmp_extension_mode {
                        IcmpExtensionParseMode::Enabled => packet.payload(),
                        IcmpExtensionParseMode::Disabled => packet.payload_raw(),
                    };
                    let extension = read_extensions(icmp_extension_mode, packet.extension());
                    match read_error_message(protocol, datagram, extension) {
                        Some((resp_seq, ext)) => Some(
                            Response::TimeExceeded(
                                ResponseData::new(recv, src, resp_seq),
                                IcmpPacketCode(icmp_code.0),
                                ext,
                            ),
                        ),
                        None => None,
                    }
                },
                _ => None,
            }
        },
        IcmpType::DestinationUnreachable => {
            let packet = match DestinationUnreachablePacket::new_view(icmp_v4.packet()) {
                Ok(packet) => packet,
                Err(_) => {
                    return None;
                },
            };
            let extension = read_extensions(icmp_extension_mode, packet.extension());
            match read_error_message(protocol, packet.payload(), extension) {
                Some((resp_seq, ext)) => Some(
                    Response::DestinationUnreachable(
                        ResponseData::new(recv, src, resp_seq),
                        IcmpPacketCode(icmp_code.0),
                        ext,
                    ),
                ),
                None => None,
            }
        },
        IcmpType::EchoReply => match protocol {
            Protocol::Icmp => {
                let packet = match EchoReplyPacket::new_view(icmp_v4.packet()) {
                    Ok(packet) => packet,
                    Err(_) => {
                        return None;
                    },
                };
                let id = packet.get_identifier();
                let seq = packet.get_sequence();
                let resp_seq = ResponseSeq::Icmp(ResponseSeqIcmp::new(id, seq));
                Some(
                    Response::EchoReply(
                        ResponseData::new(recv, src, resp_seq),
                        IcmpPacketCode(icmp_code.0),
                    ),
                )
            },
            Protocol::Udp | Protocol::Tcp => None,
        },
        _ => None,
    }
}

/// When the response `r` was received; of no meaning where there is none.
pub open spec fn received_at(r: Option<Response>) -> SystemTime {
    match r {
        Some(Response::TimeExceeded(data, _, _)) => data.recv,
        Some(Response::DestinationUnreachable(data, _, _)) => data.recv,
        Some(Response::EchoReply(data, _)) => data.recv,
        Some(Response::TcpReply(data)) => data.recv,
        Some(Response::TcpRefused(data)) => data.recv,
        None => arbitrary(),
    }
}

/// Whether a packet is a response does not depend on when it was received.
pub proof fn lemma_response_whenever(
    protocol: Protocol,
    mode: IcmpExtensionParseMode,
    ip: Seq<u8>,
    first: SystemTime,
    second: SystemTime,
)
    ensures
        probe_response(protocol, mode, ip, first) is Some <==> probe_response(
            protocol,
            mode,
            ip,
            second,
        ) is Some,
{
}

/// Finds the response that the packet `ipv4`, received now, is to a probe of a trace of
/// `protocol`, if it is one.
pub fn extract_probe_resp(
    protocol: Protocol,
    icmp_extension_mode: IcmpExtensionParseMode,
    ipv4: &Ipv4Packet<'_>,
) -> (r: Option<Response>)
    ensures
        response_view(r) == probe_response(
            protocol,
            icmp_extension_mode,
            ipv4.bytes(),
            received_at(r),
        ),
{
    let recv = now();
    let r = extract_probe_resp_at(protocol, icmp_extension_mode, ipv4, recv);
    proof {
        lemma_response_whenever(
            protocol,
            icmp_extension_mode,
            ipv4.bytes(),
            recv,
            received_at(r),
        );
    }
    r
}

/// What becomes of one read from the receiving socket, judged at the time `recv`: nothing
/// where the read would have blocked, the failure where it failed otherwise, and for a
/// datagram the response that it is, or nothing where it is none.
pub open spec fn read_outcome(
    protocol: Protocol,
    mode: IcmpExtensionParseMode,
    read: IoResult<Seq<u8>>,
    recv: SystemTime,
) -> Result<Option<ResponseView>, Error> {
    match read {
        Ok(datagram) => Ok(probe_response(protocol, mode, datagram, recv)),
        Err(err) => if err.kind == IoErrorKind::WouldBlock {
            Ok(None)
        } else {
            Err(Error::IoError(err))
        },
    }
}

/// What the result of a receive holds.
pub open spec fn received_view(r: Result<Option<Response>, Error>) -> Result<
    Option<ResponseView>,
    Error,
> {
    match r {
        Ok(response) => Ok(response_view(response)),
        Err(e) => Err(e),
    }
}

/// What the result of a read holds.
pub open spec fn read_view(read: IoResult<&[u8]>) -> IoResult<Seq<u8>> {
    match read {
        Ok(datagram) => Ok(datagram@),
        Err(e) => Err(e),
    }
}

/// Judges one read from the receiving socket at the time `recv`.
pub fn process_read(
    protocol: Protocol,
    icmp_extension_mode: IcmpExtensionParseMode,
    read: IoResult<&[u8]>,
    recv: SystemTime,
) -> (r: Result<Option<Response>, Error>)
    ensures
        received_view(r) == read_outcome(protocol, icmp_extension_mode, read_view(read), recv),
{
    match read {
        Ok(datagram) => match Ipv4Packet::new_view(datagram) {
            Ok(ipv4) => Ok(extract_probe_resp_at(protocol, icmp_extension_mode, &ipv4, recv)),
            Err(_) => Ok(None),
        },
        Err(err) => match err.kind {
            IoErrorKind::WouldBlock => Ok(None),
            _ => Err(Error::IoError(err)),
        },
    }
}

/// The datagram that a read into `buffer` gave, where the socket answered `answer`: the
/// first bytes of the buffer, as many as the socket said. A length that the buffer cannot
/// hold gives an empty datagram.
pub open spec fn datagram_read(buffer: Seq<u8>, answer: IoResult<usize>) -> IoResult<Seq<u8>> {
    match answer {
        Ok(n) => if n <= buffer.len() {
            Ok(buffer.take(n as int))
        } else {
            Ok(Seq::empty())
        },
        Err(e) => Err(e),
    }
}

/// The datagram that the read `call` gave.
pub open spec fn datagram_of(call: SocketCall) -> IoResult<Seq<u8>> {
    match call {
        SocketCall::Read(buffer, answer) => datagram_read(buffer, answer),
        _ => Ok(Seq::empty()),
    }
}

/// When the response in `r` was received; of no meaning where there is none.
pub open spec fn result_received_at(r: Result<Option<Response>, Error>) -> SystemTime {
    match r {
        Ok(response) => received_at(response),
        Err(_) => arbitrary(),
    }
}

/// What becomes of a read does not depend on when it is judged, but for the time that the
/// response carries.
pub proof fn lemma_read_outcome_whenever(
    protocol: Protocol,
    mode: IcmpExtensionParseMode,
    read: IoResult<Seq<u8>>,
    first: SystemTime,
    second: SystemTime,
)
    ensures
        read_outcome(protocol, mode, read, first) is Ok <==> read_outcome(
            protocol,
            mode,
            read,
            second,
        ) is Ok,
        read_outcome(protocol, mode, read, first) is Err ==> read_outcome(
            protocol,
            mode,
            read,
            first,
        ) == read_outcome(protocol, mode, read, second),
        read_outcome(protocol, mode, read, first) == Ok::<Option<ResponseView>, Error>(None)
            <==> read_outcome(protocol, mode, read, second) == Ok::<Option<ResponseView>, Error>(
            None,
        ),
{
    match read {
        Ok(datagram) => {
            lemma_response_whenever(protocol, mode, datagram, first, second);
        },
        Err(_) => {},
    }
}

/// Reads one datagram from the receiving socket, without waiting, and finds the response
/// that it is to a probe of a trace of `protocol`.
///
/// The socket is asked once, to read into a buffer of 1024 bytes. Where it answers that
/// the read would block, there is no response; any other failure of the read is reported.
/// Where it answers with a datagram, the result is the response that the datagram is, as
/// `probe_response` tells, or none where it is no response.
pub fn recv_icmp_probe<S: Socket>(
    recv_socket: &mut Channel<S>,
    protocol: Protocol,
    icmp_extension_mode: IcmpExtensionParseMode,
) -> (r: Result<Option<Response>, Error>)
    ensures
        final(recv_socket).calls().len() == old(recv_socket).calls().len() + 1,
        final(recv_socket).calls().drop_last() == old(recv_socket).calls(),
        final(recv_socket).calls().last() is Read,
        final(recv_socket).calls().last()->Read_0.len() == MAX_PACKET_SIZE,
        received_view(r) == read_outcome(
            protocol,
            icmp_extension_mode,
            datagram_of(final(recv_socket).calls().last()),
            result_received_at(r),
        ),
{
    let mut buf = [0u8; 1024];
    let read = recv_socket.read(&mut buf);
    let recv = now();
    let ghost call = SocketCall::Read(buf@, read);
    proof {
        assert(recv_socket.calls() == old(recv_socket).calls().push(call));
        assert(recv_socket.calls().drop_last() =~= old(recv_socket).calls());
        assert(recv_socket.calls().last() == call);
        lemma_read_outcome_whenever(
            protocol,
            icmp_extension_mode,
            datagram_of(call),
            recv,
            arbitrary(),
        );
    }
    let r = match read {
        Ok(bytes_read) => {
            if bytes_read > MAX_PACKET_SIZE {
                Ok(None)
            } else {
                let datagram = slice_subrange(buf.as_slice(), 0, bytes_read);
                assert(datagram@ =~= datagram_read(buf@, read)->Ok_0);
                process_read(protocol, icmp_extension_mode, Ok(datagram), recv)
            }
        },
        Err(err) => process_read(protocol, icmp_extension_mode, Err(err), recv),
    };
    proof {
        lemma_read_outcome_whenever(
            protocol,
            icmp_extension_mode,
            datagram_of(call),
            recv,
            result_received_at(r),
        );
    }
    r
}

/// What was learned of a connecting TCP socket.
#[derive(Debug, Clone, Copy, PartialEq, Eq, Structural)]
pub enum TcpProbeState {
    /// No failure is queued, and the socket has the peer address given, or none.
    Connected(Option<SocketAddr>),
    /// The destination refused the connection.
    Refused,
    /// The host was reported as unreachable by the router with the given address.
    UnreachableVia(IpAddr),
    /// Another failure is queued for the socket.
    Failed,
}

/// The response that a TCP probe from `src_port` to `dest_addr` and `dest_port` has got, as
/// the state of its socket shows at the time `recv`: a reply from the peer where the socket
/// is connected, a refusal from `dest_addr`, a time-exceeded message with code 1 and no
/// extensions from the router that reported the host as unreachable, and none after any
/// other failure. A connected socket without a peer address is an error.
pub open spec fn tcp_outcome(
    state: TcpProbeState,
    src_port: Port,
    dest_port: Port,
    dest_addr: IpAddr,
    recv: SystemTime,
) -> Result<Option<ResponseView>, Error> {
    let resp_seq = ResponseSeq::Tcp(
        ResponseSeqTcp { dest_addr, src_port: src_port.0, dest_port: dest_port.0 },
    );
    match state {
        TcpProbeState::Connected(Some(peer)) => Ok(
            Some(ResponseView::TcpReply(ResponseData { recv, addr: peer.ip, resp_seq })),
        ),
        TcpProbeState::Connected(None) => Err(Error::MissingAddr),
        TcpProbeState::Refused => Ok(
            Some(ResponseView::TcpRefused(ResponseData { recv, addr: dest_addr, resp_seq })),
        ),
        TcpProbeState::UnreachableVia(router) => Ok(
            Some(
                ResponseView::TimeExceeded(
                    ResponseData { recv, addr: router, resp_seq },
                    IcmpPacketCode(1),
                    None,
                ),
            ),
        ),
        TcpProbeState::Failed => Ok(None),
    }
}

/// Judges the state of the socket of a TCP probe at the time `recv`.
pub fn process_tcp_state(
    state: TcpProbeState,
    src_port: Port,
    dest_port: Port,
    dest_addr: IpAddr,
    recv: SystemTime,
) -> (r: Result<Option<Response>, Error>)
    ensures
        received_view(r) == tcp_outcome(state, src_port, dest_port, dest_addr, recv),
{
    let resp_seq = ResponseSeq::Tcp(ResponseSeqTcp::new(dest_addr, src_port.0, dest_port.0));
    match state {
        TcpProbeState::Connected(Some(peer)) => Ok(
            Some(Response::TcpReply(ResponseData::new(recv, peer.ip(), resp_seq))),
        ),
        TcpProbeState::Connected(None) => Err(Error::MissingAddr),
        TcpProbeState::Refused => Ok(
            Some(Response::TcpRefused(ResponseData::new(recv, dest_addr, resp_seq))),
        ),
        TcpProbeState::UnreachableVia(router) => Ok(
            Some(
                Response::TimeExceeded(
                    ResponseData::new(recv, router, resp_seq),
                    IcmpPacketCode(1),
                    None,
                ),
            ),
        ),
        TcpProbeState::Failed => Ok(None),
    }
}

/// What to do next with the socket of a TCP probe, once its queued failure is known.
#[derive(Debug, Clone, Copy, PartialEq, Eq, Structural)]
pub enum TcpProbeStep {
    /// Ask the socket for its peer and, if it has one, shut it down: it is connected.
    AskPeer,
    /// Ask the socket for the router whose ICMP error made the connection fail.
    AskRouter,
    /// Nothing more is to be asked: the state of the probe is known.
    Done(TcpProbeState),
}

/// What the queued failure `error` of the socket of a TCP probe calls for: without one the
/// socket is connected and is asked for its peer; a refusal settles the probe; after a
/// host-unreachable failure the socket is asked for the router; any other failure settles
/// the probe as failed.
pub open spec fn step_after(error: Option<SocketError>) -> TcpProbeStep {
    match error {
        None => TcpProbeStep::AskPeer,
        Some(SocketError::ConnectionRefused) => TcpProbeStep::Done(TcpProbeState::Refused),
        Some(SocketError::HostUnreachable) => TcpProbeStep::AskRouter,
        Some(SocketError::Other(_)) => TcpProbeStep::Done(TcpProbeState::Failed),
    }
}

/// Decides what to do next with the socket of a TCP probe, once its queued failure is known.
pub fn next_tcp_step(error: Option<SocketError>) -> (r: TcpProbeStep)
    ensures
        r == step_after(error),
{
    match error {
        None => TcpProbeStep::AskPeer,
        Some(SocketError::ConnectionRefused) => TcpProbeStep::Done(TcpProbeState::Refused),
        Some(SocketError::HostUnreachable) => TcpProbeStep::AskRouter,
        Some(SocketError::Other(_)) => TcpProbeStep::Done(TcpProbeState::Failed),
    }
}

/// Whether `asked` are the requests that are made of the socket of a TCP probe to learn
/// its state, given what it answers. It is asked for its queued failure. Where that
/// settles the probe, or the request itself fails, nothing more is asked. Where there is no
/// failure it is asked for its peer and, if it has one, to shut down. After a
/// host-unreachable failure it is asked for the router behind it.
pub open spec fn tcp_questions(asked: Seq<SocketCall>) -> bool {
    asked.len() >= 1 && match asked[0] {
        SocketCall::TakeError(Ok(error)) => match step_after(error) {
            TcpProbeStep::Done(_) => asked.len() == 1,
            TcpProbeStep::AskPeer => asked.len() >= 2 && match asked[1] {
                SocketCall::PeerAddr(Ok(Some(_))) => asked.len() == 3 && asked[2] is Shutdown,
                SocketCall::PeerAddr(_) => asked.len() == 2,
                _ => false,
            },
            TcpProbeStep::AskRouter => asked.len() == 2 && asked[1] is RouterAddr,
        },
        SocketCall::TakeError(Err(_)) => asked.len() == 1,
        _ => false,
    }
}

/// The state of a TCP probe that the answers in `asked` show, or the failure of the first
/// request that failed. A socket without a queued failure is connected, with the peer
/// that it gave or none, once it has shut down where it has a peer.
pub open spec fn tcp_answers_state(asked: Seq<SocketCall>) -> Result<TcpProbeState, Error> {
    match asked[0] {
        SocketCall::TakeError(Ok(error)) => match step_after(error) {
            TcpProbeStep::Done(state) => Ok(state),
            TcpProbeStep::AskPeer => match asked[1] {
                SocketCall::PeerAddr(Ok(Some(peer))) => match asked[2] {
                    SocketCall::Shutdown(Err(e)) => Err(Error::IoError(e)),
                    _ => Ok(TcpProbeState::Connected(Some(peer))),
                },
                SocketCall::PeerAddr(Ok(None)) => Ok(TcpProbeState::Connected(None)),
                SocketCall::PeerAddr(Err(e)) => Err(Error::IoError(e)),
                _ => Ok(TcpProbeState::Failed),
            },
            TcpProbeStep::AskRouter => match asked[1] {
                SocketCall::RouterAddr(Ok(router)) => Ok(TcpProbeState::UnreachableVia(router)),
                SocketCall::RouterAddr(Err(e)) => Err(Error::IoError(e)),
                _ => Ok(TcpProbeState::Failed),
            },
        },
        SocketCall::TakeError(Err(e)) => Err(Error::IoError(e)),
        _ => Ok(TcpProbeState::Failed),
    }
}

/// The response that a TCP probe has got, as the answers in `asked` of its socket show at
/// the time `recv`, or the failure of the first request that failed.
pub open spec fn tcp_answers_outcome(
    asked: Seq<SocketCall>,
    src_port: Port,
    dest_port: Port,
    dest_addr: IpAddr,
    recv: SystemTime,
) -> Result<Option<ResponseView>, Error> {
    match tcp_answers_state(asked) {
        Ok(state) => tcp_outcome(state, src_port, dest_port, dest_addr, recv),
        Err(e) => Err(e),
    }
}

/// Looks at the socket of a TCP probe and finds the response that the probe has got.
///
/// The socket is asked for its queued failure; without one, for its peer, and, where it
/// has one, to shut down; after a host-unreachable failure, for the router that reported
/// it. The first of these requests that fails is reported. Else the result is the response
/// that `tcp_outcome` tells for the state that the answers show: a reply from the peer, a
/// refusal from `dest_addr`, a time-exceeded message from the router, or none; a connected
/// socket without a peer is an error.
pub fn recv_tcp_socket<S: Socket>(
    tcp_socket: &mut Channel<S>,
    src_port: Port,
    dest_port: Port,
    dest_addr: IpAddr,
) -> (r: Result<Option<Response>, Error>)
    ensures
        continues(old(tcp_socket).calls(), final(tcp_socket).calls()),
        tcp_questions(asked_since(old(tcp_socket).calls(), final(tcp_socket).calls())),
        received_view(r) == tcp_answers_outcome(
            asked_since(old(tcp_socket).calls(), final(tcp_socket).calls()),
            src_port,
            dest_port,
            dest_addr,
            result_received_at(r),
        ),
{
    let ghost before = tcp_socket.calls();
    let ghost mut asked: Seq<SocketCall> = Seq::empty();
    let error = tcp_socket.take_error();
    proof {
        asked = seq![SocketCall::TakeError(error)];
        assert(tcp_socket.calls() =~= before + asked);
    }
    let state: Result<TcpProbeState, Error> = match error {
        Err(e) => Err(Error::IoError(e)),
        Ok(error) => match next_tcp_step(error) {
            TcpProbeStep::AskPeer => {
                let peer = tcp_socket.peer_addr();
                proof {
                    asked = seq![SocketCall::TakeError(Ok(error)), SocketCall::PeerAddr(peer)];
                    assert(tcp_socket.calls() =~= before + asked);
                }
                match peer {
                    Err(e) => Err(Error::IoError(e)),
                    Ok(None) => Ok(TcpProbeState::Connected(None)),
                    Ok(Some(addr)) => {
                        let down = tcp_socket.shutdown();
                        proof {
                            asked = seq![
                                SocketCall::TakeError(Ok(error)),
                                SocketCall::PeerAddr(peer),
                                SocketCall::Shutdown(down),
                            ];
                            assert(tcp_socket.calls() =~= before + asked);
                        }
                        match down {
                            Ok(()) => Ok(TcpProbeState::Connected(Some(addr))),
                            Err(e) => Err(Error::IoError(e)),
                        }
                    },
                }
            },
            TcpProbeStep::AskRouter => {
                let router = tcp_socket.icmp_error_info();
                proof {
                    asked = seq![SocketCall::TakeError(Ok(error)), SocketCall::RouterAddr(router)];
                    assert(tcp_socket.calls() =~= before + asked);
                }
                match router {
                    Ok(error_addr) => Ok(TcpProbeState::UnreachableVia(error_addr)),
                    Err(e) => Err(Error::IoError(e)),
                }
            },
            TcpProbeStep::Done(state) => Ok(state),
        },
    };
    proof {
        lemma_asked_since(before, asked);
        assert(tcp_questions(asked));
        assert(state == tcp_answers_state(asked));
    }
    match state {
        Ok(state) => {
            let recv = now();
            let r = process_tcp_state(state, src_port, dest_port, dest_addr, recv);
            proof {
                if r is Ok && r->Ok_0 is Some {
                    assert(received_at(r->Ok_0) == recv);
                }
            }
            r
        },
        Err(e) => Err(e),
    }
}

} // verus!
