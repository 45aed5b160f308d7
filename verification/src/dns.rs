use vstd::prelude::*;
use crate::addr::IpAddr;
use crate::text::{concat4, join, joined, views};

verus! {

/// A failure of a DNS resolver.
#[derive(Debug, Clone, PartialEq, Eq)]
pub enum Error {
    /// The lookup failed, for the reason given.
    LookupFailed(String),
}

/// The addresses that a host name resolved to.
#[derive(Debug, Clone)]
pub struct ResolvedIpAddrs(pub Vec<IpAddr>);

impl ResolvedIpAddrs {
    /// The addresses, in the order in which the resolver gave them.
    pub fn iter(&self) -> (r: &[IpAddr])
        ensures
            r@ == self.0@,
    {
        self.0.as_slice()
    }
}

/// Information about an autonomous system.
#[derive(Debug, Clone, Default)]
pub struct AsInfo {
    /// The number of the autonomous system, without the prefix `AS`.
    pub asn: String,
    /// The address prefix, in CIDR notation.
    pub prefix: String,
    /// The country code.
    pub cc: String,
    /// The name of the registry.
    pub registry: String,
    /// The date of allocation.
    pub allocated: String,
    /// The name of the autonomous system.
    pub name: String,
}

/// An address with the host names that it resolved to.
#[derive(Debug, Clone)]
pub enum Resolved {
    Normal(IpAddr, Vec<String>),
    WithAsInfo(IpAddr, Vec<String>, AsInfo),
}

/// An address that resolved to no host name.
#[derive(Debug, Clone)]
pub enum Unresolved {
    Normal(IpAddr),
    WithAsInfo(IpAddr, AsInfo),
}

/// How far the reverse resolution of an address has come.
#[derive(Debug, Clone)]
pub enum DnsEntry {
    /// The resolution is under way.
    Pending(IpAddr),
    /// The address has resolved.
    Resolved(Resolved),
    /// The address has no host name.
    NotFound(Unresolved),
    /// The resolution failed.
    Failed(IpAddr),
    /// The resolution took too long.
    Timeout(IpAddr),
}

/// What each of the strings `hosts` holds.
pub open spec fn host_names(hosts: Vec<String>) -> Seq<Seq<char>> {
    hosts@.map_values(|h: String| h@)
}

impl DnsEntry {
    /// The text that shows this entry, where `addr` is the text of its address: the host
    /// names with a blank between them where the address has resolved, else the address,
    /// after `Timeout: ` or `Failed: ` where the resolution came to that; and before either,
    /// where the autonomous system is known, its number after `AS` and a blank.
    pub open spec fn spec_text(&self, addr: Seq<char>) -> Seq<char> {
        match self {
            DnsEntry::Resolved(Resolved::Normal(_, hosts)) => joined(host_names(*hosts), " "@),
            DnsEntry::Resolved(Resolved::WithAsInfo(_, hosts, asinfo)) => "AS"@ + asinfo.asn@
                + " "@ + joined(host_names(*hosts), " "@),
            DnsEntry::Pending(_) => addr,
            DnsEntry::Timeout(_) => "Timeout: "@ + addr,
            DnsEntry::NotFound(Unresolved::Normal(_)) => addr,
            DnsEntry::NotFound(Unresolved::WithAsInfo(_, asinfo)) => "AS"@ + asinfo.asn@ + " "@
                + addr,
            DnsEntry::Failed(_) => "Failed: "@ + addr,
        }
    }

    /// The text that shows this entry, where `addr` is the text of its address.
    pub fn text(&self, addr: &String) -> (r: String)
        ensures
            r@ == self.spec_text(addr@),
    {
        let none = String::new();
        let as_prefix = "AS".to_owned();
        let blank = " ".to_owned();
        proof {
            assert(none@ + none@ + none@ + addr@ =~= addr@);
        }
        match self {
            DnsEntry::Resolved(Resolved::Normal(_, hosts)) => join_hosts(hosts),
            DnsEntry::Resolved(Resolved::WithAsInfo(_, hosts, asinfo)) => {
                let names = join_hosts(hosts);
                concat4(&as_prefix, &asinfo.asn, &blank, &names)
            },
            DnsEntry::Pending(_) => concat4(&none, &none, &none, addr),
            DnsEntry::Timeout(_) => {
                let label = "Timeout: ".to_owned();
                proof {
                    assert(none@ + none@ + label@ + addr@ =~= label@ + addr@);
                }
                concat4(&none, &none, &label, addr)
            },
            DnsEntry::NotFound(Unresolved::Normal(_)) => concat4(&none, &none, &none, addr),
            DnsEntry::NotFound(Unresolved::WithAsInfo(_, asinfo)) => concat4(
                &as_prefix,
                &asinfo.asn,
                &blank,
                addr,
            ),
            DnsEntry::Failed(_) => {
                let label = "Failed: ".to_owned();
                proof {
                    assert(none@ + none@ + label@ + addr@ =~= label@ + addr@);
                }
                concat4(&none, &none, &label, addr)
            },
        }
    }
}

/// The host names `hosts` with a blank between each two.
fn join_hosts(hosts: &Vec<String>) -> (r: String)
    ensures
        r@ == joined(host_names(*hosts), " "@),
{
    let mut parts: Vec<&String> = Vec::new();
    let mut i: usize = 0;
    while i < hosts.len()
        invariant
            i <= hosts@.len(),
            parts@.len() == i,
            forall|k: int| 0 <= k < i ==> parts@[k]@ == hosts@[k]@,
        decreases hosts@.len() - i,
    {
        parts.push(&hosts[i]);
        i += 1;
    }
    assert(views(parts@) =~= host_names(*hosts));
    join(&parts, " ")
}

/// A DNS resolver. Nothing is assumed of how an implementation behaves.
pub trait Resolver {
    /// Looks up the addresses of `hostname`, waiting for the answer.
    fn lookup(&self, hostname: &str) -> Result<ResolvedIpAddrs, Error>;

    /// Looks up the host names of `addr`, waiting for the answer.
    fn reverse_lookup(&self, addr: IpAddr) -> DnsEntry;

    /// Looks up the host names and the autonomous system of `addr`, waiting for the answer.
    fn reverse_lookup_with_asinfo(&self, addr: IpAddr) -> DnsEntry;

    /// Gives what is known of `addr` at once and has it looked up in the background.
    fn lazy_reverse_lookup(&self, addr: IpAddr) -> DnsEntry;

    /// Gives what is known of `addr` and its autonomous system at once and has them looked
    /// up in the background.
    fn lazy_reverse_lookup_with_asinfo(&self, addr: IpAddr) -> DnsEntry;
}

} // verus!
