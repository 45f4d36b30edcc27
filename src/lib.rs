//! A request/response facade over a hypervisor backend: the decisions, the
//! projections into transfer records and the JSON framing, verified.

pub mod errors;
pub mod json;
pub mod vm;
pub mod volumes;
pub mod network;
pub mod assets;
pub mod connection;
