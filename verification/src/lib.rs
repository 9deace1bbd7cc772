//! Verified core of two small port-forwarding console tools: one speaking
//! NAT-PMP to the default gateway, one driving a UPnP WANIPConnection
//! service.  The network calls themselves live outside this crate; here are
//! the decisions around them: locating the internal address that faces the
//! gateway, resolving prompted input, planning mapping requests, and framing
//! the request arguments.

pub mod errors;
pub mod mapping;
pub mod net;
pub mod prompt;
pub mod text;
pub mod upnp;
