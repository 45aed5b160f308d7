use vstd::prelude::*;

verus! {

/// The byte order in which the kernel expects the IPv4 `total_length` and
/// `flags_and_fragment_offset` fields of a packet that carries its own header.
#[derive(Debug, Clone, Copy, PartialEq, Eq, Structural)]
pub enum Ipv4ByteOrder {
    /// The kernel expects host byte order and converts the fields itself.
    Host,
    /// The kernel expects network byte order.
    Network,
}

/// `value` with its two bytes exchanged.
pub open spec fn swapped(value: u16) -> u16 {
    ((value % 256) * 256 + value / 256) as u16
}

impl Ipv4ByteOrder {
    /// The number which, written in network byte order, puts `value` on the wire in this order.
    pub open spec fn adjusted(self, value: u16) -> u16 {
        match self {
            Ipv4ByteOrder::Host => swapped(value),
            Ipv4ByteOrder::Network => value,
        }
    }

    /// The number which, written in network byte order, puts `value` on the wire in this order:
    /// `value` itself for network order, `value` with its bytes exchanged for host order.
    pub fn adjust_length(self, value: u16) -> (r: u16)
        ensures
            r == self.adjusted(value),
    {
        match self {
            Ipv4ByteOrder::Host => (value % 256) * 256 + value / 256,
            Ipv4ByteOrder::Network => value,
        }
    }
}

/// Exchanging the bytes twice gives the number back.
pub proof fn lemma_swapped_twice(value: u16)
    ensures
        swapped(swapped(value)) == value,
{
}

} // verus!
