pub mod ipv4;
pub mod reception;
pub mod round_trip;
pub mod socket;
