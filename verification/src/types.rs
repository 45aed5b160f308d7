use vstd::prelude::*;

verus! {

/// The number of a tracing round.
#[derive(Debug, Clone, Copy, Default, PartialEq, Eq, Ord, PartialOrd)]
pub struct RoundId(pub usize);

/// The largest number of rounds to run.
#[derive(Debug, Clone, Copy, PartialEq, Eq, Ord, PartialOrd)]
pub struct MaxRounds(usize);

impl MaxRounds {
    #[verifier::type_invariant]
    spec fn nonzero(&self) -> bool {
        self.0 != 0
    }

    /// The number of rounds as an integer.
    pub closed spec fn value(&self) -> usize {
        self.0
    }

    /// A limit of `rounds` rounds; there is none of zero rounds.
    pub fn new(rounds: usize) -> (r: Option<MaxRounds>)
        ensures
            r is Some <==> rounds != 0,
            r is Some ==> r->Some_0.value() == rounds,
    {
        if rounds == 0 {
            None
        } else {
            Some(MaxRounds(rounds))
        }
    }

    /// The number of rounds, which is never zero.
    pub fn get(&self) -> (n: usize)
        ensures
            n == self.value(),
            n != 0,
    {
        proof {
            use_type_invariant(self);
        }
        self.0
    }
}

/// The hop limit of a probe.
#[derive(Debug, Clone, Copy, Default, PartialEq, Eq, Ord, PartialOrd)]
pub struct TimeToLive(pub u8);

/// The sequence number of a probe.
#[derive(Debug, Clone, Copy, Default, PartialEq, Eq, Ord, PartialOrd)]
pub struct Sequence(pub u16);

/// The identifier of a trace.
#[derive(Debug, Clone, Copy, Default, PartialEq, Eq, Ord, PartialOrd)]
pub struct TraceId(pub u16);

/// The largest number of probes in flight.
#[derive(Debug, Clone, Copy, Default, PartialEq, Eq, Ord, PartialOrd)]
pub struct MaxInflight(pub u8);

/// The size in bytes of a whole probe packet, headers included.
#[derive(Debug, Clone, Copy, Default, PartialEq, Eq, Ord, PartialOrd)]
pub struct PacketSize(pub u16);

/// The byte that fills a probe's payload.
#[derive(Debug, Clone, Copy, Default, PartialEq, Eq, Ord, PartialOrd)]
pub struct PayloadPattern(pub u8);

/// The type of service (DSCP and ECN) of a probe.
#[derive(Debug, Clone, Copy, Default, PartialEq, Eq, Ord, PartialOrd)]
pub struct TypeOfService(pub u8);

/// A transport port.
#[derive(Debug, Clone, Copy, Default, PartialEq, Eq, Ord, PartialOrd)]
pub struct Port(pub u16);

impl PacketSize {
    /// The size as a length.
    pub open spec fn spec_size(self) -> usize {
        self.0 as usize
    }

    /// The size as a length.
    pub fn size(self) -> (r: usize)
        ensures
            r == self.spec_size(),
    {
        self.0 as usize
    }
}

impl TypeOfService {
    /// The type of service as the number that a socket takes.
    pub fn to_u32(self) -> (r: u32)
        ensures
            r == self.0,
    {
        self.0 as u32
    }
}

impl RoundId {
    /// Moves this round number on by `rhs`.
    pub fn add_assign(&mut self, rhs: RoundId)
        requires
            old(self).0 + rhs.0 <= usize::MAX,
        ensures
            final(self).0 == old(self).0 + rhs.0,
    {
        self.0 = self.0 + rhs.0;
    }
}

impl TimeToLive {
    /// The sum of two hop limits.
    pub fn add(self, rhs: TimeToLive) -> (r: TimeToLive)
        requires
            self.0 + rhs.0 <= u8::MAX,
        ensures
            r.0 == self.0 + rhs.0,
    {
        TimeToLive(self.0 + rhs.0)
    }

    /// The hop limit as the number that a socket takes.
    pub fn to_u32(self) -> (r: u32)
        ensures
            r == self.0,
    {
        self.0 as u32
    }

    /// The difference of two hop limits.
    pub fn sub(self, rhs: TimeToLive) -> (r: TimeToLive)
        requires
            rhs.0 <= self.0,
        ensures
            r.0 == self.0 - rhs.0,
    {
        TimeToLive(self.0 - rhs.0)
    }

    /// Raises this hop limit by `rhs`.
    pub fn add_assign(&mut self, rhs: TimeToLive)
        requires
            old(self).0 + rhs.0 <= u8::MAX,
        ensures
            final(self).0 == old(self).0 + rhs.0,
    {
        self.0 = self.0 + rhs.0;
    }
}

impl Sequence {
    /// The sum of two sequence numbers.
    pub fn add(self, rhs: Sequence) -> (r: Sequence)
        requires
            self.0 + rhs.0 <= u16::MAX,
        ensures
            r.0 == self.0 + rhs.0,
    {
        Sequence(self.0 + rhs.0)
    }

    /// The difference of two sequence numbers.
    pub fn sub(self, rhs: Sequence) -> (r: Sequence)
        requires
            rhs.0 <= self.0,
        ensures
            r.0 == self.0 - rhs.0,
    {
        Sequence(self.0 - rhs.0)
    }

    /// Moves this sequence number on by `rhs`.
    pub fn add_assign(&mut self, rhs: Sequence)
        requires
            old(self).0 + rhs.0 <= u16::MAX,
        ensures
            final(self).0 == old(self).0 + rhs.0,
    {
        self.0 = self.0 + rhs.0;
    }

    /// The remainder of this sequence number by `rhs`.
    pub fn rem(self, rhs: Sequence) -> (r: Sequence)
        requires
            rhs.0 != 0,
        ensures
            r.0 == self.0 % rhs.0,
    {
        Sequence(self.0 % rhs.0)
    }

}

impl From<Sequence> for usize {
    /// The sequence number as an index.
    fn from(sequence: Sequence) -> (r: usize) {
        sequence.0 as usize
    }
}

impl vstd::std_specs::convert::FromSpecImpl<Sequence> for usize {
    open spec fn obeys_from_spec() -> bool {
        true
    }

    open spec fn from_spec(sequence: Sequence) -> usize {
        sequence.0 as usize
    }
}

/// The set of options that a probe carries, one bit each.
#[derive(Debug, Clone, Copy, PartialEq, Eq, Structural)]
pub struct Flags {
    bits: u32,
}

impl Flags {
    /// Put the sequence number in the UDP checksum and the checksum in the payload (UDP only).
    pub fn paris_checksum() -> (f: Flags)
        ensures
            f.spec_bits() == 1,
            f.paris(),
    {
        assert(1u32 & 1 == 1) by (bit_vector);
        Flags { bits: 1 }
    }

    /// Encode the sequence number as the payload length (IPv6 UDP only).
    pub fn dublin_ipv6_payload_length() -> (f: Flags)
        ensures
            f.spec_bits() == 2,
            !f.paris(),
    {
        assert(2u32 & 1 != 1) by (bit_vector);
        Flags { bits: 2 }
    }

    /// The bits of this set.
    pub closed spec fn spec_bits(&self) -> u32 {
        self.bits
    }

    /// Whether the Paris option is in the set.
    pub open spec fn paris(&self) -> bool {
        self.spec_bits() & 1 == 1
    }

    /// The set with no option.
    pub fn empty() -> (f: Flags)
        ensures
            f.spec_bits() == 0,
            !f.paris(),
    {
        assert(0u32 & 1 != 1) by (bit_vector);
        Flags { bits: 0 }
    }

    /// The set with the options of the known bits of `bits`; other bits are dropped.
    pub fn from_bits_truncate(bits: u32) -> (f: Flags)
        ensures
            f.spec_bits() == bits & 3,
    {
        Flags { bits: bits & 3 }
    }

    /// The bits of this set.
    pub fn bits(&self) -> (b: u32)
        ensures
            b == self.spec_bits(),
    {
        self.bits
    }

    /// Whether the Paris option is in this set.
    pub fn has_paris_checksum(&self) -> (r: bool)
        ensures
            r == self.paris(),
    {
        self.bits & 1 == 1
    }

    /// Whether every option of `other` is in this set.
    pub fn contains(&self, other: Flags) -> (r: bool)
        ensures
            r == (self.spec_bits() & other.spec_bits() == other.spec_bits()),
    {
        self.bits & other.bits == other.bits
    }

    /// The options of either set.
    pub fn union(self, other: Flags) -> (f: Flags)
        ensures
            f.spec_bits() == self.spec_bits() | other.spec_bits(),
    {
        Flags { bits: self.bits | other.bits }
    }
}

} // verus!
