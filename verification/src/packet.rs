pub mod icmpv4;
pub mod ipv4;
pub mod tcp;
pub mod udp;
