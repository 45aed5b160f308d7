use vstd::prelude::*;
use crate::error::Error;
use crate::wire::{read_be16, u16_at};

verus! {

/// The length of the header of a TCP segment without options.
pub const TCP_HEADER_SIZE: usize = 20;

/// A read-only view of the bytes of a TCP segment.
pub struct TcpPacket<'a> {
    buf: &'a [u8],
}

impl<'a> TcpPacket<'a> {
    #[verifier::type_invariant]
    spec fn long_enough(&self) -> bool {
        self.buf@.len() >= TCP_HEADER_SIZE
    }

    /// The bytes of the segment.
    pub closed spec fn bytes(&self) -> Seq<u8> {
        self.buf@
    }

    /// The least number of bytes that a segment has.
    pub fn minimum_packet_size() -> (r: usize)
        ensures
            r == TCP_HEADER_SIZE,
    {
        TCP_HEADER_SIZE
    }

    /// Views `buf` as a TCP segment, unless it is shorter than a header.
    pub fn new_view(buf: &'a [u8]) -> (r: Result<TcpPacket<'a>, Error>)
        ensures
            buf@.len() >= TCP_HEADER_SIZE ==> r is Ok && r->Ok_0.bytes() == buf@,
            buf@.len() < TCP_HEADER_SIZE ==> r == Err::<TcpPacket<'a>, Error>(
                Error::PacketTooSmall,
            ),
    {
        if buf.len() >= TCP_HEADER_SIZE {
            Ok(TcpPacket { buf })
        } else {
            Err(Error::PacketTooSmall)
        }
    }

    /// The source port.
    pub fn get_source(&self) -> (r: u16)
        ensures
            r == u16_at(self.bytes(), 0),
    {
        proof {
            use_type_invariant(self);
        }
        read_be16(self.buf, 0)
    }

    /// The destination port.
    pub fn get_destination(&self) -> (r: u16)
        ensures
            r == u16_at(self.bytes(), 2),
    {
        proof {
            use_type_invariant(self);
        }
        read_be16(self.buf, 2)
    }
}

} // verus!
