//! The decision core of a forward HTTP proxy that relays every connection
//! through an upstream SOCKS5 proxy.
//!
//! Nothing here touches a socket. The caller performs the I/O and reports
//! what happened; the functions of this crate decide what to do next.

pub mod common;
pub mod dispatch;
pub mod dispatch_laws;
pub mod target;
pub mod tunnel;
pub mod tunnel_laws;
pub mod upstream;
pub mod uri;
