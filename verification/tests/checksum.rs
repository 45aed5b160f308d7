use pathtrace::addr::Ipv4Addr;
use pathtrace::checksum::{checksum, checksum_without_field, icmp_ipv4_checksum, udp_ipv4_checksum};
use pathtrace::wire::{push_all, push_be16, push_filled, read_be16, write_all, write_be16, zeros};

#[test]
fn test_checksum_of_nothing() {
    assert_eq!(checksum(&[]), 0xffff);
}

#[test]
fn test_checksum_of_echo_request() {
    assert_eq!(checksum(&[0x08, 0x00, 0x00, 0x00, 0x04, 0xd2, 0x80, 0xe8]), 0x7245);
}

#[test]
fn test_checksum_pads_odd_length() {
    assert_eq!(checksum(&[0x01]), 0xfeff);
    assert_eq!(checksum(&[0x01, 0x00]), 0xfeff);
}

#[test]
fn test_checksum_folds_carries() {
    assert_eq!(checksum(&[0xff, 0xff, 0xff, 0xff]), 0x0000);
    assert_eq!(checksum(&[0xff, 0xff, 0x00, 0x01]), 0xfffe);
}

#[test]
fn test_checksum_of_long_data() {
    let data = vec![0xff_u8; 70000];
    assert_eq!(checksum(&data), 0x0000);
}

#[test]
fn test_icmp_checksum_ignores_checksum_field() {
    let unsummed = [0x08, 0x00, 0x00, 0x00, 0x04, 0xd2, 0x80, 0xe8];
    let summed = [0x08, 0x00, 0x72, 0x45, 0x04, 0xd2, 0x80, 0xe8];
    assert_eq!(icmp_ipv4_checksum(&unsummed), 0x7245);
    assert_eq!(icmp_ipv4_checksum(&summed), 0x7245);
    assert_eq!(checksum_without_field(&summed, 2), 0x7245);
}

#[test]
fn test_message_with_its_checksum_adds_up() {
    let summed = [0x08, 0x00, 0x72, 0x45, 0x04, 0xd2, 0x80, 0xe8];
    assert_eq!(checksum(&summed), 0x0000);
}

#[test]
fn test_udp_checksum() {
    let src = Ipv4Addr::new(1, 2, 3, 4);
    let dest = Ipv4Addr::new(5, 6, 7, 8);
    let empty = [0x00, 0x7b, 0x01, 0xc8, 0x00, 0x08, 0x00, 0x00];
    assert_eq!(udp_ipv4_checksum(&empty, src, dest), 0xed87);
    let mut with_payload = vec![0x00, 0x7b, 0x01, 0xc8, 0x00, 0x12, 0x12, 0x34];
    with_payload.extend_from_slice(&[0xaa; 10]);
    assert_eq!(udp_ipv4_checksum(&with_payload, src, dest), 0x981e);
    assert_ne!(udp_ipv4_checksum(&with_payload, dest, Ipv4Addr::new(9, 9, 9, 9)), 0x981e);
}

#[test]
fn test_wire_helpers() {
    let mut buf = vec![0x01];
    push_be16(&mut buf, 0x80e8);
    push_filled(&mut buf, 0xaa, 3);
    push_all(&mut buf, &[0x02, 0x03]);
    push_filled(&mut buf, 0xbb, 0);
    assert_eq!(buf, vec![0x01, 0x80, 0xe8, 0xaa, 0xaa, 0xaa, 0x02, 0x03]);
    assert_eq!(read_be16(&buf, 1), 0x80e8);
    assert_eq!(read_be16(&buf, 6), 0x0203);
    write_be16(&mut buf, 0, 0x1234);
    write_all(&mut buf, 5, &[0x07, 0x08, 0x09]);
    write_all(&mut buf, 8, &[]);
    assert_eq!(buf, vec![0x12, 0x34, 0xe8, 0xaa, 0xaa, 0x07, 0x08, 0x09]);
    assert_eq!(zeros(3), vec![0, 0, 0]);
    assert!(zeros(0).is_empty());
}
