use pathtrace::addr::Ipv4Addr;
use pathtrace::checksum::{checksum, udp_ipv4_checksum};
use pathtrace::error::Error;
use pathtrace::net::ipv4::{
    icmp_payload_size, make_icmp_probe_packet, make_udp_probe_packet, udp_payload_size,
};
use pathtrace::packet::icmpv4::{
    make_echo_request_icmp_packet, DestinationUnreachablePacket, EchoReplyPacket,
    EchoRequestPacket, IcmpCode, IcmpPacket, IcmpTimeExceededCode, IcmpType,
    MutableEchoRequestPacket, TimeExceededPacket,
};
use pathtrace::packet::ipv4::{make_ipv4_packet, IpProtocol, Ipv4Packet, MutableIpv4Packet};
use pathtrace::packet::tcp::TcpPacket;
use pathtrace::packet::udp::{
    make_udp_packet, swap_checksum_and_payload, MutableUdpPacket, UdpPacket,
};
use pathtrace::platform::Ipv4ByteOrder;
use pathtrace::probe::Probe;
use pathtrace::types::{
    Flags, PacketSize, PayloadPattern, Port, RoundId, Sequence, TimeToLive, TraceId,
};
use std::time::SystemTime;

fn probe(flags: Flags) -> Probe {
    Probe::new(
        Sequence(33000),
        TraceId(1234),
        Port(123),
        Port(456),
        TimeToLive(10),
        RoundId(0),
        SystemTime::UNIX_EPOCH,
        flags,
    )
}

const SRC: Ipv4Addr = Ipv4Addr { a: 1, b: 2, c: 3, d: 4 };
const DEST: Ipv4Addr = Ipv4Addr { a: 5, b: 6, c: 7, d: 8 };

#[test]
fn test_adjust_length() {
    assert_eq!(Ipv4ByteOrder::Network.adjust_length(0x001c), 0x001c);
    assert_eq!(Ipv4ByteOrder::Host.adjust_length(0x001c), 0x1c00);
    assert_eq!(Ipv4ByteOrder::Host.adjust_length(0x4000), 0x0040);
    assert_eq!(Ipv4ByteOrder::Host.adjust_length(0xffff), 0xffff);
    assert_eq!(Ipv4ByteOrder::Host.adjust_length(0), 0);
}

#[test]
fn test_payload_sizes() {
    assert_eq!(icmp_payload_size(28), 0);
    assert_eq!(icmp_payload_size(1024), 996);
    assert_eq!(udp_payload_size(28), 0);
    assert_eq!(udp_payload_size(38), 10);
}

#[test]
fn test_make_echo_request() {
    let packet =
        make_echo_request_icmp_packet(TraceId(1234), Sequence(33000), 0, PayloadPattern(0))
            .unwrap();
    assert_eq!(packet.packet(), &[0x08, 0x00, 0x72, 0x45, 0x04, 0xd2, 0x80, 0xe8]);
    let packet =
        make_echo_request_icmp_packet(TraceId(1234), Sequence(33000), 3, PayloadPattern(0x01))
            .unwrap()
            .into_inner();
    assert_eq!(packet.len(), 11);
    assert_eq!(&packet[8..], &[0x01, 0x01, 0x01]);
    assert_eq!(checksum(&packet), 0);
}

#[test]
fn test_make_ipv4_packet_in_host_order() {
    let packet = make_ipv4_packet(
        Ipv4ByteOrder::Host,
        IpProtocol::Tcp,
        SRC,
        DEST,
        64,
        0xabcd,
        &[0xee, 0xff],
    )
    .unwrap();
    assert_eq!(
        packet.into_inner(),
        vec![
            0x45, 0x00, 0x16, 0x00, 0xab, 0xcd, 0x00, 0x40, 0x40, 0x06, 0x00, 0x00, 1, 2, 3, 4, 5,
            6, 7, 8, 0xee, 0xff
        ]
    );
}

#[test]
fn test_icmp_probe_packet_decodes() {
    for size in [28_u16, 29, 48, 1024] {
        let bytes = make_icmp_probe_packet(
            &probe(Flags::empty()),
            SRC,
            DEST,
            PacketSize(size),
            PayloadPattern(0x5a),
            Ipv4ByteOrder::Network,
        )
        .unwrap()
        .into_inner();
        assert_eq!(bytes.len(), usize::from(size));
        let ipv4 = Ipv4Packet::new_view(&bytes).unwrap();
        assert_eq!(ipv4.get_version(), 4);
        assert_eq!(ipv4.get_header_length(), 5);
        assert_eq!(ipv4.get_total_length(), size);
        assert_eq!(ipv4.get_identification(), 0);
        assert_eq!(ipv4.get_flags_and_fragment_offset(), 0x4000);
        assert_eq!(ipv4.get_ttl(), 10);
        assert_eq!(ipv4.get_protocol(), IpProtocol::Icmp);
        assert_eq!(ipv4.get_checksum(), 0);
        assert_eq!(ipv4.get_source(), SRC);
        assert_eq!(ipv4.get_destination(), DEST);
        assert_eq!(ipv4.packet(), &bytes[..]);
        let icmp = IcmpPacket::new_view(ipv4.payload()).unwrap();
        assert_eq!(icmp.get_icmp_type(), IcmpType::EchoRequest);
        assert_eq!(icmp.get_icmp_code(), IcmpCode(0));
        assert_eq!(checksum(icmp.packet()), 0);
        assert_eq!(icmp.payload().len(), usize::from(size) - 28);
        let echo = EchoRequestPacket::new_view(ipv4.payload()).unwrap();
        assert_eq!(echo.get_identifier(), 1234);
        assert_eq!(echo.get_sequence(), 33000);
        assert!(echo.payload().iter().all(|b| *b == 0x5a));
        assert_eq!(echo.payload().len(), usize::from(size) - 28);
    }
}

#[test]
fn test_icmp_probe_packet_size_limits() {
    for size in [0_u16, 27, 1025, u16::MAX] {
        let r = make_icmp_probe_packet(
            &probe(Flags::empty()),
            SRC,
            DEST,
            PacketSize(size),
            PayloadPattern(0),
            Ipv4ByteOrder::Network,
        );
        assert_eq!(r.err(), Some(Error::InvalidPacketSize(usize::from(size))));
    }
}

#[test]
fn test_udp_probe_packet_decodes() {
    let payload = [0x1f_u8; 9];
    let bytes = make_udp_probe_packet(
        &probe(Flags::dublin_ipv6_payload_length()),
        SRC,
        DEST,
        &payload,
        Ipv4ByteOrder::Network,
    )
    .unwrap()
    .into_inner();
    let ipv4 = Ipv4Packet::new_view(&bytes).unwrap();
    assert_eq!(ipv4.get_total_length(), 37);
    assert_eq!(ipv4.get_identification(), 1234);
    assert_eq!(ipv4.get_protocol(), IpProtocol::Udp);
    let udp = UdpPacket::new_view(ipv4.payload()).unwrap();
    assert_eq!(udp.get_source(), 123);
    assert_eq!(udp.get_destination(), 456);
    assert_eq!(udp.get_length(), 17);
    assert_eq!(udp.payload(), &payload[..]);
    assert_eq!(udp.get_checksum(), udp_ipv4_checksum(ipv4.payload(), SRC, DEST));
}

#[test]
fn test_paris_swap_undone_verifies() {
    for sequence in [0_u16, 1, 33000, u16::MAX] {
        let paris = Probe { sequence: Sequence(sequence), ..probe(Flags::paris_checksum()) };
        let bytes =
            make_udp_probe_packet(&paris, SRC, DEST, &[0xaa; 272], Ipv4ByteOrder::Network)
                .unwrap()
                .into_inner();
        assert_eq!(bytes.len(), 30);
        let ipv4 = Ipv4Packet::new_view(&bytes).unwrap();
        assert_eq!(ipv4.get_identification(), 1234);
        let udp = UdpPacket::new_view(ipv4.payload()).unwrap();
        assert_eq!(udp.get_length(), 10);
        assert_eq!(udp.get_checksum(), sequence);
        let mut plain = MutableUdpPacket::new(ipv4.payload().to_vec()).unwrap();
        swap_checksum_and_payload(&mut plain);
        assert_eq!(plain.payload(), &sequence.to_be_bytes());
        assert_eq!(plain.get_checksum(), udp_ipv4_checksum(plain.packet(), SRC, DEST));
        let made = make_udp_packet(SRC, DEST, 123, 456, &sequence.to_be_bytes()).unwrap();
        assert_eq!(plain.packet(), made.packet());
    }
}

#[test]
fn test_views_refuse_short_buffers() {
    assert_eq!(Ipv4Packet::new_view(&[0; 19]).err(), Some(Error::PacketTooSmall));
    assert!(Ipv4Packet::new_view(&[0; 20]).is_ok());
    assert_eq!(IcmpPacket::new_view(&[0; 7]).err(), Some(Error::PacketTooSmall));
    assert!(IcmpPacket::new_view(&[0; 8]).is_ok());
    assert_eq!(EchoRequestPacket::new_view(&[0; 7]).err(), Some(Error::PacketTooSmall));
    assert_eq!(EchoReplyPacket::new_view(&[0; 7]).err(), Some(Error::PacketTooSmall));
    assert_eq!(TimeExceededPacket::new_view(&[0; 7]).err(), Some(Error::PacketTooSmall));
    assert_eq!(
        DestinationUnreachablePacket::new_view(&[0; 7]).err(),
        Some(Error::PacketTooSmall)
    );
    assert_eq!(UdpPacket::new_view(&[0; 7]).err(), Some(Error::PacketTooSmall));
    assert!(UdpPacket::new_view(&[0; 8]).is_ok());
    assert_eq!(TcpPacket::new_view(&[0; 19]).err(), Some(Error::PacketTooSmall));
    assert!(TcpPacket::new_view(&[0; 20]).is_ok());
    assert_eq!(Ipv4Packet::minimum_packet_size(), 20);
    assert_eq!(IcmpPacket::minimum_packet_size(), 8);
    assert_eq!(UdpPacket::minimum_packet_size(), 8);
    assert_eq!(TcpPacket::minimum_packet_size(), 20);
}

#[test]
fn test_ipv4_payload_follows_header_length() {
    let mut bytes = vec![0_u8; 30];
    for (i, b) in bytes.iter_mut().enumerate() {
        *b = i as u8;
    }
    bytes[0] = 0x45;
    assert_eq!(Ipv4Packet::new_view(&bytes).unwrap().payload(), &bytes[20..]);
    bytes[0] = 0x46;
    assert_eq!(Ipv4Packet::new_view(&bytes).unwrap().payload(), &bytes[24..]);
    bytes[0] = 0x40;
    assert_eq!(Ipv4Packet::new_view(&bytes).unwrap().payload(), &bytes[20..]);
    bytes[0] = 0x4f;
    assert!(Ipv4Packet::new_view(&bytes).unwrap().payload().is_empty());
}

#[test]
fn test_tcp_view() {
    let mut bytes = [0_u8; 20];
    bytes[..4].copy_from_slice(&[0x80, 0xfd, 0x00, 0x50]);
    let tcp = TcpPacket::new_view(&bytes).unwrap();
    assert_eq!(tcp.get_source(), 33021);
    assert_eq!(tcp.get_destination(), 80);
}

#[test]
fn test_protocol_and_type_numbers() {
    for id in 0..=u8::MAX {
        assert_eq!(IpProtocol::from_id(id).id(), id);
        assert_eq!(IcmpType::from_id(id).id(), id);
    }
    assert_eq!(IpProtocol::from_id(1), IpProtocol::Icmp);
    assert_eq!(IpProtocol::from_id(6), IpProtocol::Tcp);
    assert_eq!(IpProtocol::from_id(17), IpProtocol::Udp);
    assert_eq!(IpProtocol::from_id(58), IpProtocol::IcmpV6);
    assert_eq!(IpProtocol::from_id(2), IpProtocol::Other(2));
    assert_eq!(IcmpType::from_id(0), IcmpType::EchoReply);
    assert_eq!(IcmpType::from_id(3), IcmpType::DestinationUnreachable);
    assert_eq!(IcmpType::from_id(8), IcmpType::EchoRequest);
    assert_eq!(IcmpType::from_id(11), IcmpType::TimeExceeded);
    assert_eq!(IcmpType::from_id(12), IcmpType::Other(12));
    assert_eq!(IcmpTimeExceededCode::from_code(IcmpCode(0)), IcmpTimeExceededCode::TtlExpired);
    assert_eq!(
        IcmpTimeExceededCode::from_code(IcmpCode(1)),
        IcmpTimeExceededCode::FragmentReassembly
    );
    assert_eq!(IcmpTimeExceededCode::from_code(IcmpCode(2)), IcmpTimeExceededCode::Unknown(2));
}

#[test]
fn test_builders_refuse_short_buffers() {
    assert_eq!(MutableIpv4Packet::new(vec![0; 19]).err(), Some(Error::PacketTooSmall));
    assert!(MutableIpv4Packet::new(vec![0; 20]).is_ok());
    assert_eq!(MutableEchoRequestPacket::new(vec![0; 7]).err(), Some(Error::PacketTooSmall));
    assert!(MutableEchoRequestPacket::new(vec![0; 8]).is_ok());
    assert_eq!(MutableUdpPacket::new(vec![0; 7]).err(), Some(Error::PacketTooSmall));
    assert!(MutableUdpPacket::new(vec![0; 8]).is_ok());
}

#[test]
fn test_ipv4_setters() {
    let mut ipv4 = MutableIpv4Packet::new(vec![0xff; 24]).unwrap();
    ipv4.set_version(4);
    assert_eq!(ipv4.packet()[0], 0x4f);
    ipv4.set_header_length(5);
    assert_eq!(ipv4.packet()[0], 0x45);
    ipv4.set_version(6);
    assert_eq!(ipv4.packet()[0], 0x65);
    ipv4.set_version(4);
    ipv4.set_total_length(0x0018);
    ipv4.set_identification(0x1234);
    ipv4.set_flags_and_fragment_offset(0x4000);
    ipv4.set_ttl(7);
    ipv4.set_protocol(IpProtocol::Udp);
    ipv4.set_checksum(0xabcd);
    ipv4.set_source(SRC);
    ipv4.set_destination(DEST);
    ipv4.set_payload(&[0x01, 0x02]);
    assert_eq!(
        ipv4.packet(),
        &[
            0x45, 0xff, 0x00, 0x18, 0x12, 0x34, 0x40, 0x00, 0x07, 0x11, 0xab, 0xcd, 1, 2, 3, 4, 5,
            6, 7, 8, 0x01, 0x02, 0xff, 0xff
        ]
    );
    let bytes = ipv4.into_inner();
    let view = Ipv4Packet::new_view(&bytes).unwrap();
    assert_eq!(view.get_total_length(), 0x0018);
    assert_eq!(view.get_identification(), 0x1234);
    assert_eq!(view.get_checksum(), 0xabcd);
    assert_eq!(view.payload(), &[0x01, 0x02, 0xff, 0xff]);
}

#[test]
fn test_echo_request_setters() {
    let mut echo = MutableEchoRequestPacket::new(vec![0xff; 10]).unwrap();
    echo.set_icmp_type(IcmpType::EchoRequest);
    echo.set_icmp_code(IcmpCode(0));
    echo.set_checksum(0x7245);
    echo.set_identifier(1234);
    echo.set_sequence(33000);
    echo.set_payload(&[0x09]);
    assert_eq!(echo.packet(), &[0x08, 0x00, 0x72, 0x45, 0x04, 0xd2, 0x80, 0xe8, 0x09, 0xff]);
}

#[test]
fn test_udp_setters() {
    let mut udp = MutableUdpPacket::new(vec![0xff; 11]).unwrap();
    udp.set_source(123);
    udp.set_destination(456);
    udp.set_length(11);
    udp.set_checksum(0x80e8);
    udp.set_payload(&[0x6c, 0x9b]);
    assert_eq!(
        udp.packet(),
        &[0x00, 0x7b, 0x01, 0xc8, 0x00, 0x0b, 0x80, 0xe8, 0x6c, 0x9b, 0xff]
    );
    assert_eq!(udp.get_checksum(), 0x80e8);
    assert_eq!(udp.payload(), &[0x6c, 0x9b, 0xff]);
    swap_checksum_and_payload(&mut udp);
    assert_eq!(
        udp.packet(),
        &[0x00, 0x7b, 0x01, 0xc8, 0x00, 0x0b, 0x6c, 0x9b, 0x80, 0xe8, 0xff]
    );
}
