//! Verified core of the Scanopy server: credential mapping and dispatch rules,
//! daemon version lifecycle, discovery digest classification, and the network
//! address rules behind the SSRF guard.

pub mod ids;
pub mod net;
pub mod text;
pub mod time;
pub mod version;
pub mod digest;
pub mod mapping;
pub mod snmp;
pub mod fields;
pub mod payload;
pub mod kinds;
pub mod dispatch;
pub mod daemons;
pub mod polling;
pub mod reach;
pub mod install;
pub mod queries;
pub mod dependencies;
pub mod sessions;
pub mod laws;
