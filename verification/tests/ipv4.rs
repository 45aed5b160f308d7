use pathtrace::addr::{IpAddr, Ipv4Addr, SocketAddr};
use pathtrace::error::{Error, IoError, IoErrorKind, IoResult};
use pathtrace::net::ipv4::{
    dispatch_icmp_probe, dispatch_tcp_probe, dispatch_udp_probe, dispatch_udp_probe_non_raw,
    recv_icmp_probe, recv_tcp_socket,
};
use pathtrace::net::socket::{Channel, Socket, SocketError};
use std::sync::Mutex;
use pathtrace::platform::Ipv4ByteOrder;
use pathtrace::probe::{
    IcmpExtensionParseMode, IcmpPacketCode, PrivilegeMode, Probe, Protocol, Response,
    ResponseData, ResponseSeq, ResponseSeqIcmp, ResponseSeqTcp, ResponseSeqUdp,
};
use pathtrace::types::{
    Flags, PacketSize, PayloadPattern, Port, RoundId, Sequence, TimeToLive, TraceId,
    TypeOfService,
};
use std::time::SystemTime;

/// One request made of a socket that a dispatch opened for itself.
#[derive(Debug, Clone, PartialEq, Eq)]
enum Event {
    OpenDatagram(bool),
    OpenStream,
    Bind(SocketAddr),
    SetTtl(u32),
    SetTos(u32),
    Connect(SocketAddr),
    SendTo(Vec<u8>, SocketAddr),
}

/// What the sockets that a dispatch opened for itself were asked, in order.
static OPENED: Mutex<Vec<Event>> = Mutex::new(Vec::new());

/// The request that such a socket is to fail, and how.
static FAILING: Mutex<Option<(&'static str, IoError)>> = Mutex::new(None);

/// Held by a test for as long as it uses the two records above.
static MTX: Mutex<()> = Mutex::new(());

/// Clears the shared records and says which request is to fail.
fn expect_opened(fail: Option<(&'static str, IoError)>) {
    OPENED.lock().unwrap().clear();
    *FAILING.lock().unwrap() = fail;
}

fn opened() -> Vec<Event> {
    OPENED.lock().unwrap().clone()
}

/// An in-memory socket that records what it is asked to do and answers as it was told.
#[derive(Default)]
struct Mocket {
    sent: Vec<(Vec<u8>, SocketAddr)>,
    bound: Vec<SocketAddr>,
    connected: Vec<SocketAddr>,
    ttl: Vec<u32>,
    tos: Vec<u32>,
    shutdowns: usize,
    reads: usize,
    read_buf: Vec<u8>,
    read_err: Option<IoError>,
    error: Option<SocketError>,
    peer: Option<SocketAddr>,
    error_info: Option<IpAddr>,
    asked: Vec<&'static str>,
    fail: Option<(&'static str, IoError)>,
    shared: bool,
}

impl Mocket {
    fn reading(bytes: Vec<u8>) -> Mocket {
        Mocket { read_buf: bytes, ..Mocket::default() }
    }

    /// A socket that a dispatch opens for itself: its requests go to the shared record.
    fn open(event: Event) -> IoResult<Mocket> {
        OPENED.lock().unwrap().push(event);
        let fail = *FAILING.lock().unwrap();
        match fail {
            Some(("open", failure)) => Err(failure),
            _ => Ok(Mocket { fail, shared: true, ..Mocket::default() }),
        }
    }

    /// Notes that `what` was asked, and tells whether it is to fail.
    fn ask(&mut self, what: &'static str) -> IoResult<()> {
        self.asked.push(what);
        match self.fail {
            Some((which, failure)) if which == what => Err(failure),
            _ => Ok(()),
        }
    }

    /// Puts `event` into the shared record if this socket was opened by a dispatch.
    fn note(&self, event: Event) {
        if self.shared {
            OPENED.lock().unwrap().push(event);
        }
    }
}

impl Socket for Mocket {
    fn new_icmp_send_socket_ipv4() -> IoResult<Self> {
        Ok(Mocket::default())
    }

    fn new_udp_send_socket_ipv4_raw() -> IoResult<Self> {
        Ok(Mocket::default())
    }

    fn new_udp_send_socket_ipv4(raw: bool) -> IoResult<Self> {
        Mocket::open(Event::OpenDatagram(raw))
    }

    fn new_recv_socket_ipv4(_addr: Ipv4Addr) -> IoResult<Self> {
        Ok(Mocket::default())
    }

    fn new_stream_socket_ipv4() -> IoResult<Self> {
        Mocket::open(Event::OpenStream)
    }

    fn bind(&mut self, addr: SocketAddr) -> IoResult<()> {
        self.bound.push(addr);
        self.note(Event::Bind(addr));
        self.ask("bind")
    }

    fn set_tos(&mut self, tos: u32) -> IoResult<()> {
        self.tos.push(tos);
        self.note(Event::SetTos(tos));
        self.ask("set_tos")
    }

    fn set_ttl(&mut self, ttl: u32) -> IoResult<()> {
        self.ttl.push(ttl);
        self.note(Event::SetTtl(ttl));
        self.ask("set_ttl")
    }

    fn connect(&mut self, addr: SocketAddr) -> IoResult<()> {
        self.connected.push(addr);
        self.note(Event::Connect(addr));
        self.ask("connect")
    }

    fn send_to(&mut self, buf: &[u8], addr: SocketAddr) -> IoResult<()> {
        self.sent.push((buf.to_vec(), addr));
        self.note(Event::SendTo(buf.to_vec(), addr));
        self.ask("send_to")
    }

    fn read(&mut self, buf: &mut [u8]) -> IoResult<usize> {
        self.reads += 1;
        if let Some(err) = self.read_err {
            return Err(err);
        }
        buf[..self.read_buf.len()].copy_from_slice(&self.read_buf);
        Ok(self.read_buf.len())
    }

    fn shutdown(&mut self) -> IoResult<()> {
        self.shutdowns += 1;
        self.ask("shutdown")
    }

    fn peer_addr(&mut self) -> IoResult<Option<SocketAddr>> {
        self.ask("peer_addr")?;
        Ok(self.peer)
    }

    fn take_error(&mut self) -> IoResult<Option<SocketError>> {
        self.ask("take_error")?;
        Ok(self.error)
    }

    fn icmp_error_info(&mut self) -> IoResult<IpAddr> {
        self.ask("icmp_error_info")?;
        Ok(self.error_info.unwrap())
    }
}

/// The bytes that a string of hexadecimal digits spells, white space skipped.
fn hex(s: &str) -> Vec<u8> {
    let digits: Vec<u8> = s
        .chars()
        .filter(|c| !c.is_whitespace())
        .map(|c| c.to_digit(16).unwrap() as u8)
        .collect();
    assert_eq!(digits.len() % 2, 0);
    digits.chunks(2).map(|pair| pair[0] * 16 + pair[1]).collect()
}

fn v4(a: u8, b: u8, c: u8, d: u8) -> IpAddr {
    IpAddr::V4(Ipv4Addr::new(a, b, c, d))
}

fn make_icmp_probe() -> Probe {
    Probe::new(
        Sequence(33000),
        TraceId(1234),
        Port(0),
        Port(0),
        TimeToLive(10),
        RoundId(0),
        SystemTime::now(),
        Flags::empty(),
    )
}

fn make_udp_probe(src_port: u16, dest_port: u16) -> Probe {
    Probe::new(
        Sequence(33000),
        TraceId(1234),
        Port(src_port),
        Port(dest_port),
        TimeToLive(10),
        RoundId(0),
        SystemTime::now(),
        Flags::empty(),
    )
}

fn check_icmp_dispatch(packet_size: u16, pattern: u8, expected: &str) {
    let probe = make_icmp_probe();
    let src_addr = Ipv4Addr::new(1, 2, 3, 4);
    let dest_addr = Ipv4Addr::new(5, 6, 7, 8);
    let mut mocket = Channel::new(Mocket::default());
    dispatch_icmp_probe(
        &mut mocket,
        probe,
        src_addr,
        dest_addr,
        PacketSize(packet_size),
        PayloadPattern(pattern),
        Ipv4ByteOrder::Network,
    )
    .unwrap();
    let expected_send_to_addr = SocketAddr::new(IpAddr::V4(dest_addr), 0);
    assert_eq!(mocket.get_ref().unwrap().sent, vec![(hex(expected), expected_send_to_addr)]);
}

fn icmp_dispatch_error(packet_size: u16) -> Error {
    let probe = make_icmp_probe();
    let mut mocket = Channel::new(Mocket::default());
    let err = dispatch_icmp_probe(
        &mut mocket,
        probe,
        Ipv4Addr::new(1, 2, 3, 4),
        Ipv4Addr::new(5, 6, 7, 8),
        PacketSize(packet_size),
        PayloadPattern(0x00),
        Ipv4ByteOrder::Network,
    )
    .unwrap_err();
    assert!(mocket.get_ref().unwrap().sent.is_empty());
    err
}

fn check_udp_dispatch(probe: Probe, packet_size: u16, pattern: u8, expected: &str) {
    let src_addr = Ipv4Addr::new(1, 2, 3, 4);
    let dest_addr = Ipv4Addr::new(5, 6, 7, 8);
    let mut mocket = Channel::new(Mocket::default());
    dispatch_udp_probe(
        &mut mocket,
        probe,
        src_addr,
        dest_addr,
        PrivilegeMode::Privileged,
        PacketSize(packet_size),
        PayloadPattern(pattern),
        Ipv4ByteOrder::Network,
    )
    .unwrap();
    let expected_send_to_addr = SocketAddr::new(IpAddr::V4(dest_addr), 456);
    assert_eq!(mocket.get_ref().unwrap().sent, vec![(hex(expected), expected_send_to_addr)]);
}

fn udp_dispatch_error(packet_size: u16) -> Error {
    let probe = make_udp_probe(123, 456);
    let mut mocket = Channel::new(Mocket::default());
    let err = dispatch_udp_probe(
        &mut mocket,
        probe,
        Ipv4Addr::new(1, 2, 3, 4),
        Ipv4Addr::new(5, 6, 7, 8),
        PrivilegeMode::Privileged,
        PacketSize(packet_size),
        PayloadPattern(0x00),
        Ipv4ByteOrder::Network,
    )
    .unwrap_err();
    assert!(mocket.get_ref().unwrap().sent.is_empty());
    err
}

fn check_udp_unprivileged(packet_size: u16, pattern: u8, expected: &str) {
    let _m = MTX.lock();
    expect_opened(None);
    let probe = make_udp_probe(123, 456);
    let src_addr = Ipv4Addr::new(1, 2, 3, 4);
    let dest_addr = Ipv4Addr::new(5, 6, 7, 8);
    let expected_send_to_buf = hex(expected);
    let expected_send_to_addr = SocketAddr::new(IpAddr::V4(dest_addr), 456);
    let expected_bind_addr = SocketAddr::new(IpAddr::V4(src_addr), 123);
    let expected_set_ttl = 10;

    let mut mocket = Channel::new(Mocket::default());
    dispatch_udp_probe(
        &mut mocket,
        probe,
        src_addr,
        dest_addr,
        PrivilegeMode::Unprivileged,
        PacketSize(packet_size),
        PayloadPattern(pattern),
        Ipv4ByteOrder::Network,
    )
    .unwrap();
    assert_eq!(
        opened(),
        vec![
            Event::OpenDatagram(false),
            Event::Bind(expected_bind_addr),
            Event::SetTtl(expected_set_ttl),
            Event::SendTo(expected_send_to_buf, expected_send_to_addr),
        ]
    );
    let raw = mocket.into_inner().unwrap();
    assert!(raw.sent.is_empty());
    assert!(raw.bound.is_empty());
    assert!(raw.ttl.is_empty());
}

/// The result of an unprivileged UDP dispatch of which the request `what` fails, and what
/// the socket that it opened was asked.
fn udp_unprivileged_failing(what: &'static str, failure: IoError) -> (Result<(), Error>, usize) {
    let _m = MTX.lock();
    expect_opened(Some((what, failure)));
    let mut mocket = Channel::new(Mocket::default());
    let r = dispatch_udp_probe(
        &mut mocket,
        make_udp_probe(123, 456),
        Ipv4Addr::new(1, 2, 3, 4),
        Ipv4Addr::new(5, 6, 7, 8),
        PrivilegeMode::Unprivileged,
        PacketSize(36),
        PayloadPattern(0x1f),
        Ipv4ByteOrder::Network,
    );
    assert!(mocket.get_ref().unwrap().sent.is_empty());
    (r, opened().len())
}

/// The result of a TCP dispatch of which the request `what` fails, and what the socket that
/// it opened was asked.
fn tcp_failing(what: &'static str, failure: IoError) -> (Option<Error>, usize) {
    let _m = MTX.lock();
    expect_opened(Some((what, failure)));
    let r = dispatch_tcp_probe::<Mocket>(
        &make_udp_probe(123, 456),
        Ipv4Addr::new(1, 2, 3, 4),
        Ipv4Addr::new(5, 6, 7, 8),
        TypeOfService(0),
    );
    (r.err().map(|failure| failure.error), opened().len())
}

#[test]
fn test_dispatch_icmp_probe_no_payload() {
    check_icmp_dispatch(
        28,
        0x00,
        "45 00 00 1c 00 00 40 00 0a 01 00 00 01 02 03 04
         05 06 07 08 08 00 72 45 04 d2 80 e8",
    );
}

#[test]
fn test_dispatch_icmp_probe_with_payload() {
    check_icmp_dispatch(
        48,
        0xff,
        "45 00 00 30 00 00 40 00 0a 01 00 00 01 02 03 04
         05 06 07 08 08 00 72 45 04 d2 80 e8 ff ff ff ff
         ff ff ff ff ff ff ff ff ff ff ff ff ff ff ff ff",
    );
}

#[test]
fn test_dispatch_icmp_probe_invalid_packet_size_low() {
    let err = icmp_dispatch_error(27);
    assert!(matches!(err, Error::InvalidPacketSize(_)));
    assert_eq!(err, Error::InvalidPacketSize(27));
}

#[test]
fn test_dispatch_icmp_probe_invalid_packet_size_high() {
    let err = icmp_dispatch_error(1025);
    assert!(matches!(err, Error::InvalidPacketSize(_)));
    assert_eq!(err, Error::InvalidPacketSize(1025));
}

#[test]
fn test_dispatch_udp_probe_classic_privileged_no_payload() {
    check_udp_dispatch(
        make_udp_probe(123, 456),
        28,
        0x00,
        "45 00 00 1c 04 d2 40 00 0a 11 00 00 01 02 03 04
         05 06 07 08 00 7b 01 c8 00 08 ed 87",
    );
}

#[test]
fn test_dispatch_udp_probe_classic_privileged_with_payload() {
    check_udp_dispatch(
        make_udp_probe(123, 456),
        38,
        0xaa,
        "45 00 00 26 04 d2 40 00 0a 11 00 00 01 02 03 04
         05 06 07 08 00 7b 01 c8 00 12 98 1e aa aa aa aa
         aa aa aa aa aa aa",
    );
}

#[test]
fn test_dispatch_udp_probe_paris_privileged() {
    let probe = Probe { flags: Flags::paris_checksum(), ..make_udp_probe(123, 456) };
    // packet size and payload pattern are ignored for paris mode as a
    // fixed two byte payload is used to hold the sequence
    check_udp_dispatch(
        probe,
        300,
        0xaa,
        "45 00 00 1e 04 d2 40 00 0a 11 00 00 01 02 03 04
         05 06 07 08 00 7b 01 c8 00 0a 80 e8 6c 9b",
    );
}

#[test]
fn test_dispatch_udp_probe_dublin_privileged() {
    let probe = Probe {
        // note: this is always set for UDP/Dublin but is a no-op for IPv4
        flags: Flags::dublin_ipv6_payload_length(),
        identifier: TraceId(33000),
        ..make_udp_probe(123, 456)
    };
    check_udp_dispatch(
        probe,
        28,
        0xaa,
        "45 00 00 1c 80 e8 40 00 0a 11 00 00 01 02 03 04
         05 06 07 08 00 7b 01 c8 00 08 ed 87",
    );
}

#[test]
fn test_dispatch_udp_probe_classic_unprivileged_no_payload() {
    check_udp_unprivileged(28, 0x00, "");
}

#[test]
fn test_dispatch_udp_probe_classic_unprivileged_with_payload() {
    check_udp_unprivileged(36, 0x1f, "1f 1f 1f 1f 1f 1f 1f 1f");
}

#[test]
fn test_dispatch_udp_probe_invalid_packet_size_low() {
    let err = udp_dispatch_error(27);
    assert!(matches!(err, Error::InvalidPacketSize(_)));
    assert_eq!(err, Error::InvalidPacketSize(27));
}

#[test]
fn test_dispatch_udp_probe_invalid_packet_size_high() {
    let err = udp_dispatch_error(1025);
    assert!(matches!(err, Error::InvalidPacketSize(_)));
    assert_eq!(err, Error::InvalidPacketSize(1025));
}

#[test]
fn test_dispatch_tcp_probe() {
    let _m = MTX.lock();
    expect_opened(None);
    let probe = make_udp_probe(123, 456);
    let src_addr = Ipv4Addr::new(1, 2, 3, 4);
    let dest_addr = Ipv4Addr::new(5, 6, 7, 8);
    let tos = TypeOfService(0);
    let expected_bind_addr = SocketAddr::new(IpAddr::V4(src_addr), 123);
    let expected_set_ttl = 10;
    let expected_set_tos = 0;
    let expected_connect_addr = SocketAddr::new(IpAddr::V4(dest_addr), 456);

    let socket = dispatch_tcp_probe::<Mocket>(&probe, src_addr, dest_addr, tos)
        .ok()
        .unwrap()
        .into_inner()
        .unwrap();
    assert_eq!(socket.bound, vec![expected_bind_addr]);
    assert_eq!(socket.ttl, vec![expected_set_ttl]);
    assert_eq!(socket.tos, vec![expected_set_tos]);
    assert_eq!(socket.connected, vec![expected_connect_addr]);
    assert!(socket.sent.is_empty());
    assert_eq!(
        opened(),
        vec![
            Event::OpenStream,
            Event::Bind(expected_bind_addr),
            Event::SetTtl(expected_set_ttl),
            Event::SetTos(expected_set_tos),
            Event::Connect(expected_connect_addr),
        ]
    );
}

#[test]
fn test_dispatch_tcp_probe_connect_in_progress_is_no_failure() {
    let in_progress = IoError { kind: IoErrorKind::InProgress, code: 115 };
    assert_eq!(tcp_failing("connect", in_progress), (None, 5));
    assert_eq!(tcp_failing("bind", in_progress), (None, 5));
}

#[test]
fn test_dispatch_tcp_probe_stops_at_the_first_failure() {
    let failure = IoError { kind: IoErrorKind::Other, code: 13 };
    assert_eq!(tcp_failing("open", failure), (Some(Error::IoError(failure)), 1));
    assert_eq!(tcp_failing("bind", failure), (Some(Error::IoError(failure)), 2));
    assert_eq!(tcp_failing("set_ttl", failure), (Some(Error::IoError(failure)), 3));
    assert_eq!(tcp_failing("set_tos", failure), (Some(Error::IoError(failure)), 4));
    assert_eq!(tcp_failing("connect", failure), (Some(Error::IoError(failure)), 5));
    let in_progress = IoError { kind: IoErrorKind::InProgress, code: 115 };
    assert_eq!(tcp_failing("set_ttl", in_progress), (Some(Error::IoError(in_progress)), 3));
}

#[test]
fn test_dispatch_udp_probe_unprivileged_stops_at_the_first_failure() {
    let failure = IoError { kind: IoErrorKind::Other, code: 98 };
    assert_eq!(udp_unprivileged_failing("open", failure), (Err(Error::IoError(failure)), 1));
    assert_eq!(udp_unprivileged_failing("bind", failure), (Err(Error::IoError(failure)), 2));
    assert_eq!(udp_unprivileged_failing("set_ttl", failure), (Err(Error::IoError(failure)), 3));
    assert_eq!(udp_unprivileged_failing("send_to", failure), (Err(Error::IoError(failure)), 4));
    let in_progress = IoError { kind: IoErrorKind::InProgress, code: 115 };
    assert_eq!(udp_unprivileged_failing("bind", in_progress), (Ok(()), 4));
}

#[test]
fn test_dispatch_udp_probe_non_raw_gives_the_socket_back() {
    let _m = MTX.lock();
    expect_opened(None);
    let probe = make_udp_probe(123, 456);
    let src_addr = Ipv4Addr::new(1, 2, 3, 4);
    let dest_addr = Ipv4Addr::new(5, 6, 7, 8);
    let socket = dispatch_udp_probe_non_raw::<Mocket>(probe, src_addr, dest_addr, &[0x1f; 8])
        .ok()
        .unwrap()
        .into_inner()
        .unwrap();
    assert_eq!(socket.bound, vec![SocketAddr::new(IpAddr::V4(src_addr), 123)]);
    assert_eq!(socket.ttl, vec![10]);
    assert_eq!(socket.sent, vec![(vec![0x1f; 8], SocketAddr::new(IpAddr::V4(dest_addr), 456))]);
}

#[test]
fn test_dispatch_reports_a_failed_send() {
    let failure = IoError { kind: IoErrorKind::Other, code: 90 };
    let probe = make_udp_probe(123, 456);
    let src_addr = Ipv4Addr::new(1, 2, 3, 4);
    let dest_addr = Ipv4Addr::new(5, 6, 7, 8);
    let mut mocket =
        Channel::new(Mocket { fail: Some(("send_to", failure)), ..Mocket::default() });
    let r = dispatch_icmp_probe(
        &mut mocket,
        probe,
        src_addr,
        dest_addr,
        PacketSize(28),
        PayloadPattern(0),
        Ipv4ByteOrder::Network,
    );
    assert_eq!(r, Err(Error::IoError(failure)));
    assert_eq!(mocket.get_ref().unwrap().sent.len(), 1);
    let r = dispatch_udp_probe(
        &mut mocket,
        probe,
        src_addr,
        dest_addr,
        PrivilegeMode::Privileged,
        PacketSize(28),
        PayloadPattern(0),
        Ipv4ByteOrder::Network,
    );
    assert_eq!(r, Err(Error::IoError(failure)));
    assert_eq!(mocket.get_ref().unwrap().sent.len(), 2);
    // a send that would block is a failure like any other
    let would_block = IoError { kind: IoErrorKind::WouldBlock, code: 11 };
    let mut mocket =
        Channel::new(Mocket { fail: Some(("send_to", would_block)), ..Mocket::default() });
    let r = dispatch_icmp_probe(
        &mut mocket,
        probe,
        src_addr,
        dest_addr,
        PacketSize(28),
        PayloadPattern(0),
        Ipv4ByteOrder::Network,
    );
    assert_eq!(r, Err(Error::IoError(would_block)));
}

#[test]
fn test_channel_without_socket_answers_with_its_failure() {
    let _m = MTX.lock();
    let failure = IoError { kind: IoErrorKind::Other, code: 24 };
    expect_opened(Some(("open", failure)));
    let mut channel = Channel::<Mocket>::open_stream_socket_ipv4();
    assert_eq!(channel.opened(), Err(failure));
    assert!(channel.get_ref().is_none());
    assert_eq!(channel.take_error(), Err(failure));
    assert_eq!(
        recv_tcp_socket(&mut channel, Port(33000), Port(80), v4(1, 2, 3, 4)),
        Err(Error::IoError(failure))
    );
    assert!(channel.into_inner().is_none());
    expect_opened(None);
    let channel = Channel::<Mocket>::open_udp_send_socket_ipv4(false);
    assert_eq!(channel.opened(), Ok(()));
    assert!(channel.get_ref().is_some());
    assert_eq!(opened(), vec![Event::OpenDatagram(false)]);
}

const ECHO_REPLY: &str = "
    45 20 00 54 00 00 00 00 3b 01 50 02 8e fb de ce
    c0 a8 01 15 00 00 09 0f 75 d7 81 19 00 00 00 00
    00 00 00 00 00 00 00 00 00 00 00 00 00 00 00 00
    00 00 00 00 00 00 00 00 00 00 00 00 00 00 00 00
    00 00 00 00 00 00 00 00 00 00 00 00 00 00 00 00
    00 00 00 00";

const TIME_EXCEEDED_ICMP: &str = "
    45 20 00 70 07 d7 00 00 3b 01 e9 5d 8e fa 3d 81
    c0 a8 01 15 0b 00 f4 ff 00 00 00 00 45 60 00 54
    65 b0 40 00 01 01 e4 11 c0 a8 01 15 8e fb de ce
    08 00 01 11 75 d7 81 17 00 00 00 00 00 00 00 00
    00 00 00 00 00 00 00 00 00 00 00 00 00 00 00 00
    00 00 00 00 00 00 00 00 00 00 00 00 00 00 00 00
    00 00 00 00 00 00 00 00 00 00 00 00 00 00 00 00";

const TIME_EXCEEDED_UDP: &str = "
    45 c0 00 70 0e c8 00 00 40 01 e7 9e c0 a8 01 01
    c0 a8 01 15 0b 00 12 98 00 00 00 00 45 00 00 54
    90 69 00 00 01 11 0b ea c0 a8 01 15 8e fa cc 8e
    7c 55 81 06 00 40 e4 cb 00 00 00 00 00 00 00 00
    00 00 00 00 00 00 00 00 00 00 00 00 00 00 00 00
    00 00 00 00 00 00 00 00 00 00 00 00 00 00 00 00
    00 00 00 00 00 00 00 00 00 00 00 00 00 00 00 00";

const TIME_EXCEEDED_TCP: &str = "
    45 20 00 5c a6 9d 00 00 3b 01 54 e5 d1 55 f0 eb
    c0 a8 01 15 0b 00 12 79 00 00 00 00 45 80 00 40
    00 00 40 00 01 06 5b f2 c0 a8 01 15 8e fa cc 8e
    80 fd 00 50 61 f2 4d 4a 00 00 00 00 b0 02 ff ff
    14 05 00 00 02 04 05 b4 01 03 03 06 01 01 08 0a
    55 59 7f cd 00 00 00 00 04 02 00 00";

fn recv(bytes: &str, protocol: Protocol, mode: IcmpExtensionParseMode) -> Option<Response> {
    let mut mocket = Channel::new(Mocket::reading(hex(bytes)));
    let resp = recv_icmp_probe(&mut mocket, protocol, mode).unwrap();
    assert_eq!(mocket.get_ref().unwrap().reads, 1);
    resp
}

#[test]
fn test_recv_icmp_probe_echo_reply() {
    let resp = recv(ECHO_REPLY, Protocol::Icmp, IcmpExtensionParseMode::Disabled).unwrap();
    let Response::EchoReply(
        ResponseData {
            addr,
            resp_seq: ResponseSeq::Icmp(ResponseSeqIcmp { identifier, sequence }),
            ..
        },
        icmp_code,
    ) = resp
    else {
        panic!("expected EchoReply")
    };
    assert_eq!(v4(142, 251, 222, 206), addr);
    assert_eq!(30167, identifier);
    assert_eq!(33049, sequence);
    assert_eq!(IcmpPacketCode(0), icmp_code);
}

#[test]
fn test_recv_icmp_probe_time_exceeded_icmp_no_extensions() {
    let resp =
        recv(TIME_EXCEEDED_ICMP, Protocol::Icmp, IcmpExtensionParseMode::Disabled).unwrap();
    let Response::TimeExceeded(
        ResponseData {
            addr,
            resp_seq: ResponseSeq::Icmp(ResponseSeqIcmp { identifier, sequence }),
            ..
        },
        icmp_code,
        extensions,
    ) = resp
    else {
        panic!("expected TimeExceeded")
    };
    assert_eq!(v4(142, 250, 61, 129), addr);
    assert_eq!(30167, identifier);
    assert_eq!(33047, sequence);
    assert_eq!(IcmpPacketCode(0), icmp_code);
    assert_eq!(None, extensions);
}

#[test]
fn test_recv_icmp_probe_destination_unreachable_icmp_no_extensions() {
    let resp = recv(
        "45 20 00 38 00 00 40 00 70 01 33 ea 14 00 00 fe
         c0 a8 01 15 03 01 fc fe 00 00 00 00 45 00 00 54
         00 00 40 00 80 01 23 ee c0 a8 01 15 14 00 00 fe
         08 00 fb d9 7b 01 81 24",
        Protocol::Icmp,
        IcmpExtensionParseMode::Disabled,
    )
    .unwrap();
    let Response::DestinationUnreachable(
        ResponseData {
            addr,
            resp_seq: ResponseSeq::Icmp(ResponseSeqIcmp { identifier, sequence }),
            ..
        },
        icmp_code,
        extensions,
    ) = resp
    else {
        panic!("expected DestinationUnreachable")
    };
    assert_eq!(v4(20, 0, 0, 254), addr);
    assert_eq!(31489, identifier);
    assert_eq!(33060, sequence);
    assert_eq!(IcmpPacketCode(1), icmp_code);
    assert_eq!(None, extensions);
}

#[test]
fn test_recv_icmp_probe_time_exceeded_udp_no_extensions() {
    let resp = recv(TIME_EXCEEDED_UDP, Protocol::Udp, IcmpExtensionParseMode::Disabled).unwrap();
    let Response::TimeExceeded(
        ResponseData {
            addr,
            resp_seq:
                ResponseSeq::Udp(ResponseSeqUdp {
                    identifier,
                    dest_addr,
                    src_port,
                    dest_port,
                    checksum,
                    payload_len,
                    has_magic,
                }),
            ..
        },
        icmp_code,
        extensions,
    ) = resp
    else {
        panic!("expected TimeExceeded")
    };
    assert_eq!(v4(192, 168, 1, 1), addr);
    assert_eq!(36969, identifier);
    assert_eq!(v4(142, 250, 204, 142), dest_addr);
    assert_eq!(31829, src_port);
    assert_eq!(33030, dest_port);
    assert_eq!(58571, checksum);
    assert_eq!(56, payload_len);
    assert!(!has_magic);
    assert_eq!(IcmpPacketCode(0), icmp_code);
    assert_eq!(None, extensions);
}

#[test]
fn test_recv_icmp_probe_destination_unreachable_udp_no_extensions() {
    let resp = recv(
        "45 20 00 70 bc f6 00 00 39 01 f0 a7 09 09 09 09
         c0 a8 01 15 03 0a d1 16 00 00 00 00 45 20 00 54
         a2 09 00 00 01 11 43 a1 c0 a8 01 15 09 09 09 09
         80 0b 80 f2 00 40 2a a1 00 00 00 00 00 00 00 00
         00 00 00 00 00 00 00 00 00 00 00 00 00 00 00 00
         00 00 00 00 00 00 00 00 00 00 00 00 00 00 00 00
         00 00 00 00 00 00 00 00 00 00 00 00 00 00 00 00",
        Protocol::Udp,
        IcmpExtensionParseMode::Disabled,
    )
    .unwrap();
    let Response::DestinationUnreachable(
        ResponseData {
            addr,
            resp_seq:
                ResponseSeq::Udp(ResponseSeqUdp {
                    identifier,
                    dest_addr,
                    src_port,
                    dest_port,
                    checksum,
                    payload_len,
                    has_magic,
                }),
            ..
        },
        icmp_code,
        extensions,
    ) = resp
    else {
        panic!("expected DestinationUnreachable")
    };
    assert_eq!(v4(9, 9, 9, 9), addr);
    assert_eq!(41481, identifier);
    assert_eq!(v4(9, 9, 9, 9), dest_addr);
    assert_eq!(32779, src_port);
    assert_eq!(33010, dest_port);
    assert_eq!(10913, checksum);
    assert_eq!(56, payload_len);
    assert!(!has_magic);
    assert_eq!(IcmpPacketCode(10), icmp_code);
    assert_eq!(None, extensions);
}

#[test]
fn test_recv_icmp_probe_time_exceeded_tcp_no_extensions() {
    let resp = recv(TIME_EXCEEDED_TCP, Protocol::Tcp, IcmpExtensionParseMode::Disabled).unwrap();
    let Response::TimeExceeded(
        ResponseData {
            addr,
            resp_seq: ResponseSeq::Tcp(ResponseSeqTcp { dest_addr, src_port, dest_port }),
            ..
        },
        icmp_code,
        extensions,
    ) = resp
    else {
        panic!("expected TimeExceeded")
    };
    assert_eq!(v4(209, 85, 240, 235), addr);
    assert_eq!(v4(142, 250, 204, 142), dest_addr);
    assert_eq!(33021, src_port);
    assert_eq!(80, dest_port);
    assert_eq!(IcmpPacketCode(0), icmp_code);
    assert_eq!(None, extensions);
}

#[test]
fn test_recv_icmp_probe_destination_unreachable_tcp_no_extensions() {
    let resp = recv(
        "45 20 00 5c d6 e0 00 00 39 01 d6 d1 09 09 09 09
         c0 a8 01 15 03 0a d0 f7 00 00 00 00 45 20 00 40
         00 00 00 00 01 06 e5 c9 c0 a8 01 15 09 09 09 09
         80 f2 27 1b 5e b1 fa c7 00 00 00 00 b0 02 ff ff
         a4 53 00 00 02 04 05 b4 01 03 03 06 01 01 08 0a
         1d 02 a0 50 00 00 00 00 04 02 00 00",
        Protocol::Tcp,
        IcmpExtensionParseMode::Disabled,
    )
    .unwrap();
    let Response::DestinationUnreachable(
        ResponseData {
            addr,
            resp_seq: ResponseSeq::Tcp(ResponseSeqTcp { dest_addr, src_port, dest_port }),
            ..
        },
        icmp_code,
        extensions,
    ) = resp
    else {
        panic!("expected DestinationUnreachable")
    };
    assert_eq!(v4(9, 9, 9, 9), addr);
    assert_eq!(v4(9, 9, 9, 9), dest_addr);
    assert_eq!(33010, src_port);
    assert_eq!(10011, dest_port);
    assert_eq!(IcmpPacketCode(10), icmp_code);
    assert_eq!(None, extensions);
}

#[test]
fn test_recv_icmp_probe_wrong_icmp_original_datagram_type_ignored() {
    let resp = recv(TIME_EXCEEDED_ICMP, Protocol::Icmp, IcmpExtensionParseMode::Enabled);
    assert!(resp.is_some());
    let resp = recv(TIME_EXCEEDED_ICMP, Protocol::Udp, IcmpExtensionParseMode::Enabled);
    assert!(resp.is_none());
    let resp = recv(TIME_EXCEEDED_ICMP, Protocol::Tcp, IcmpExtensionParseMode::Enabled);
    assert!(resp.is_none());
}

#[test]
fn test_recv_icmp_probe_wrong_udp_original_datagram_type_ignored() {
    let resp = recv(TIME_EXCEEDED_UDP, Protocol::Udp, IcmpExtensionParseMode::Enabled);
    assert!(resp.is_some());
    let resp = recv(TIME_EXCEEDED_UDP, Protocol::Icmp, IcmpExtensionParseMode::Enabled);
    assert!(resp.is_none());
    let resp = recv(TIME_EXCEEDED_UDP, Protocol::Tcp, IcmpExtensionParseMode::Enabled);
    assert!(resp.is_none());
}

#[test]
fn test_recv_icmp_probe_wrong_tcp_original_datagram_type_ignored() {
    let resp = recv(TIME_EXCEEDED_TCP, Protocol::Tcp, IcmpExtensionParseMode::Enabled);
    assert!(resp.is_some());
    let resp = recv(TIME_EXCEEDED_TCP, Protocol::Icmp, IcmpExtensionParseMode::Enabled);
    assert!(resp.is_none());
    let resp = recv(TIME_EXCEEDED_TCP, Protocol::Udp, IcmpExtensionParseMode::Enabled);
    assert!(resp.is_none());
}

#[test]
fn test_recv_tcp_socket_tcp_reply() {
    let dest_addr = v4(1, 2, 3, 4);
    let expected_peer_addr = SocketAddr::new(dest_addr, 456);
    let mut mocket =
        Channel::new(Mocket { peer: Some(expected_peer_addr), ..Mocket::default() });

    let resp = recv_tcp_socket(&mut mocket, Port(33000), Port(456), dest_addr).unwrap().unwrap();
    assert_eq!(mocket.get_ref().unwrap().shutdowns, 1);

    let Response::TcpReply(ResponseData {
        addr,
        resp_seq: ResponseSeq::Tcp(ResponseSeqTcp { dest_addr, src_port, dest_port }),
        ..
    }) = resp
    else {
        panic!("expected TcpReply")
    };
    assert_eq!(dest_addr, addr);
    assert_eq!(33000, src_port);
    assert_eq!(456, dest_port);
}

#[test]
fn test_recv_tcp_socket_tcp_refused() {
    let dest_addr = v4(1, 2, 3, 4);
    let mut mocket =
        Channel::new(Mocket { error: Some(SocketError::ConnectionRefused), ..Mocket::default() });

    let resp = recv_tcp_socket(&mut mocket, Port(33000), Port(80), dest_addr).unwrap().unwrap();
    assert_eq!(mocket.get_ref().unwrap().shutdowns, 0);

    let Response::TcpRefused(ResponseData {
        addr,
        resp_seq: ResponseSeq::Tcp(ResponseSeqTcp { dest_addr, src_port, dest_port }),
        ..
    }) = resp
    else {
        panic!("expected TcpRefused")
    };
    assert_eq!(dest_addr, addr);
    assert_eq!(33000, src_port);
    assert_eq!(80, dest_port);
}

#[test]
fn test_recv_tcp_socket_tcp_host_unreachable() {
    let dest_addr = v4(1, 2, 3, 4);
    let mut mocket = Channel::new(Mocket {
        error: Some(SocketError::HostUnreachable),
        error_info: Some(dest_addr),
        ..Mocket::default()
    });

    let resp = recv_tcp_socket(&mut mocket, Port(33000), Port(80), dest_addr).unwrap().unwrap();

    let Response::TimeExceeded(
        ResponseData {
            addr,
            resp_seq: ResponseSeq::Tcp(ResponseSeqTcp { dest_addr, src_port, dest_port }),
            ..
        },
        icmp_code,
        extensions,
    ) = resp
    else {
        panic!("expected TimeExceeded")
    };
    assert_eq!(dest_addr, addr);
    assert_eq!(33000, src_port);
    assert_eq!(80, dest_port);
    assert_eq!(IcmpPacketCode(1), icmp_code);
    assert_eq!(None, extensions);
}

// This time-exceeded message has code 1 ("fragment reassembly time exceeded") and must be
// ignored. It is not a real packet: its length and checksum are not accurate.
#[test]
fn test_icmp_time_exceeded_fragment_reassembly_ignored() {
    let resp = recv(
        "45 20 2c 02 e4 5c 00 00 72 01 2e 04 67 4b 0b 34
         c0 a8 01 15 0b 01 1c 38 00 00 00 00 45 00 8c 05
         85 4e 20 00 30 11 ab d6 c0 a8 01 15 67 4b 0b 34",
        Protocol::Udp,
        IcmpExtensionParseMode::Enabled,
    );
    assert!(resp.is_none());
}

#[test]
fn test_recv_would_block_is_no_response() {
    let mut mocket = Channel::new(Mocket {
        read_err: Some(IoError { kind: IoErrorKind::WouldBlock, code: 11 }),
        ..Mocket::default()
    });
    let resp = recv_icmp_probe(&mut mocket, Protocol::Icmp, IcmpExtensionParseMode::Disabled);
    assert_eq!(resp, Ok(None));
}

#[test]
fn test_recv_other_failure_is_reported() {
    let failure = IoError { kind: IoErrorKind::Other, code: 5 };
    let mut mocket = Channel::new(Mocket { read_err: Some(failure), ..Mocket::default() });
    let resp = recv_icmp_probe(&mut mocket, Protocol::Icmp, IcmpExtensionParseMode::Disabled);
    assert_eq!(resp, Err(Error::IoError(failure)));
}

#[test]
fn test_recv_tcp_socket_missing_peer() {
    let mut mocket = Channel::new(Mocket::default());
    let resp = recv_tcp_socket(&mut mocket, Port(33000), Port(80), v4(1, 2, 3, 4));
    assert_eq!(resp, Err(Error::MissingAddr));
    assert_eq!(mocket.get_ref().unwrap().shutdowns, 0);
}

#[test]
fn test_recv_tcp_socket_other_failure_is_no_response() {
    let mut mocket =
        Channel::new(Mocket { error: Some(SocketError::Other(99)), ..Mocket::default() });
    let resp = recv_tcp_socket(&mut mocket, Port(33000), Port(80), v4(1, 2, 3, 4));
    assert_eq!(resp, Ok(None));
}

#[test]
fn test_recv_reads_the_socket_once() {
    let mut mocket = Channel::new(Mocket::reading(hex(ECHO_REPLY)));
    let first = recv_icmp_probe(&mut mocket, Protocol::Icmp, IcmpExtensionParseMode::Disabled);
    let second = recv_icmp_probe(&mut mocket, Protocol::Icmp, IcmpExtensionParseMode::Disabled);
    assert_eq!(mocket.get_ref().unwrap().reads, 2);
    assert!(matches!(first, Ok(Some(Response::EchoReply(..)))));
    assert!(matches!(second, Ok(Some(Response::EchoReply(..)))));
}

#[test]
fn test_recv_empty_datagram_is_no_response() {
    let mut mocket = Channel::new(Mocket::reading(vec![]));
    let resp = recv_icmp_probe(&mut mocket, Protocol::Icmp, IcmpExtensionParseMode::Disabled);
    assert_eq!(resp, Ok(None));
    assert_eq!(mocket.get_ref().unwrap().reads, 1);
}

#[test]
fn test_recv_tcp_socket_asks_only_what_is_needed() {
    let dest_addr = v4(1, 2, 3, 4);
    let mut mocket =
        Channel::new(Mocket { error: Some(SocketError::Other(99)), ..Mocket::default() });
    assert_eq!(recv_tcp_socket(&mut mocket, Port(33000), Port(80), dest_addr), Ok(None));
    assert_eq!(mocket.get_ref().unwrap().asked, vec!["take_error"]);

    let mut mocket =
        Channel::new(Mocket { error: Some(SocketError::ConnectionRefused), ..Mocket::default() });
    recv_tcp_socket(&mut mocket, Port(33000), Port(80), dest_addr).unwrap();
    assert_eq!(mocket.get_ref().unwrap().asked, vec!["take_error"]);

    let mut mocket = Channel::new(Mocket {
        error: Some(SocketError::HostUnreachable),
        error_info: Some(v4(10, 0, 0, 1)),
        ..Mocket::default()
    });
    let resp = recv_tcp_socket(&mut mocket, Port(33000), Port(80), dest_addr).unwrap().unwrap();
    assert_eq!(mocket.get_ref().unwrap().asked, vec!["take_error", "icmp_error_info"]);
    let Response::TimeExceeded(data, IcmpPacketCode(1), None) = resp else {
        panic!("expected TimeExceeded")
    };
    assert_eq!(data.addr, v4(10, 0, 0, 1));

    let peer = SocketAddr::new(v4(4, 3, 2, 1), 80);
    let mut mocket = Channel::new(Mocket { peer: Some(peer), ..Mocket::default() });
    let resp = recv_tcp_socket(&mut mocket, Port(33000), Port(80), dest_addr).unwrap().unwrap();
    assert_eq!(mocket.get_ref().unwrap().asked, vec!["take_error", "peer_addr", "shutdown"]);
    let Response::TcpReply(data) = resp else { panic!("expected TcpReply") };
    assert_eq!(data.addr, v4(4, 3, 2, 1));

    let mut mocket = Channel::new(Mocket::default());
    assert_eq!(
        recv_tcp_socket(&mut mocket, Port(33000), Port(80), dest_addr),
        Err(Error::MissingAddr)
    );
    assert_eq!(mocket.get_ref().unwrap().asked, vec!["take_error", "peer_addr"]);
}

#[test]
fn test_recv_tcp_socket_reports_the_first_failure() {
    let dest_addr = v4(1, 2, 3, 4);
    let failure = IoError { kind: IoErrorKind::Other, code: 5 };
    let mut mocket =
        Channel::new(Mocket { fail: Some(("take_error", failure)), ..Mocket::default() });
    assert_eq!(
        recv_tcp_socket(&mut mocket, Port(33000), Port(80), dest_addr),
        Err(Error::IoError(failure))
    );
    assert_eq!(mocket.get_ref().unwrap().asked, vec!["take_error"]);

    let mut mocket =
        Channel::new(Mocket { fail: Some(("peer_addr", failure)), ..Mocket::default() });
    assert_eq!(
        recv_tcp_socket(&mut mocket, Port(33000), Port(80), dest_addr),
        Err(Error::IoError(failure))
    );
    assert_eq!(mocket.get_ref().unwrap().asked, vec!["take_error", "peer_addr"]);

    let peer = SocketAddr::new(v4(4, 3, 2, 1), 80);
    let mut mocket = Channel::new(Mocket {
        peer: Some(peer),
        fail: Some(("shutdown", failure)),
        ..Mocket::default()
    });
    assert_eq!(
        recv_tcp_socket(&mut mocket, Port(33000), Port(80), dest_addr),
        Err(Error::IoError(failure))
    );
    assert_eq!(mocket.get_ref().unwrap().asked, vec!["take_error", "peer_addr", "shutdown"]);

    let mut mocket = Channel::new(Mocket {
        error: Some(SocketError::HostUnreachable),
        fail: Some(("icmp_error_info", failure)),
        ..Mocket::default()
    });
    assert_eq!(
        recv_tcp_socket(&mut mocket, Port(33000), Port(80), dest_addr),
        Err(Error::IoError(failure))
    );
    assert_eq!(mocket.get_ref().unwrap().asked, vec!["take_error", "icmp_error_info"]);
}
