pub mod addr;
pub mod checksum;
pub mod config;
pub mod dns;
pub mod error;
pub mod extension;
pub mod geoip;
pub mod net;
pub mod packet;
pub mod platform;
pub mod probe;
pub mod text;
pub mod types;
pub mod wire;
