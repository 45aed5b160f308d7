use pathtrace::addr::{IpAddr, Ipv4Addr};
use pathtrace::dns::{AsInfo, DnsEntry, Resolved, ResolvedIpAddrs, Unresolved};

fn addr() -> IpAddr {
    IpAddr::V4(Ipv4Addr::new(81, 0, 100, 1))
}

fn asinfo() -> AsInfo {
    AsInfo { asn: "12301".to_string(), name: "INVITECH, HU".to_string(), ..AsInfo::default() }
}

fn hosts(names: &[&str]) -> Vec<String> {
    names.iter().map(|name| name.to_string()).collect()
}

fn text(entry: DnsEntry) -> String {
    entry.text(&"81.0.100.1".to_string())
}

#[test]
fn test_text_of_resolved() {
    let entry = DnsEntry::Resolved(Resolved::Normal(addr(), hosts(&["a.example", "b.example"])));
    assert_eq!(text(entry), "a.example b.example");
    let entry = DnsEntry::Resolved(Resolved::Normal(addr(), hosts(&["a.example"])));
    assert_eq!(text(entry), "a.example");
    let entry = DnsEntry::Resolved(Resolved::Normal(addr(), hosts(&[])));
    assert_eq!(text(entry), "");
    let entry = DnsEntry::Resolved(Resolved::WithAsInfo(
        addr(),
        hosts(&["a.example", "b.example", "c.example"]),
        asinfo(),
    ));
    assert_eq!(text(entry), "AS12301 a.example b.example c.example");
}

#[test]
fn test_text_of_unresolved() {
    assert_eq!(text(DnsEntry::Pending(addr())), "81.0.100.1");
    assert_eq!(text(DnsEntry::Timeout(addr())), "Timeout: 81.0.100.1");
    assert_eq!(text(DnsEntry::Failed(addr())), "Failed: 81.0.100.1");
    assert_eq!(text(DnsEntry::NotFound(Unresolved::Normal(addr()))), "81.0.100.1");
    assert_eq!(
        text(DnsEntry::NotFound(Unresolved::WithAsInfo(addr(), asinfo()))),
        "AS12301 81.0.100.1"
    );
}

#[test]
fn test_resolved_addrs_keep_their_order() {
    let second = IpAddr::V4(Ipv4Addr::new(81, 0, 100, 2));
    let addrs = ResolvedIpAddrs(vec![addr(), second]);
    assert_eq!(addrs.iter(), &[addr(), second]);
    assert!(ResolvedIpAddrs(vec![]).iter().is_empty());
}
