//! An intercepting TLS proxy: a certificate authority that mints per-host
//! leaf certificates, the sequencing of the double handshake, and a
//! buffered, direction-aware byte pump that relays and captures traffic.
//!
//! The I/O itself (sockets, TLS streams, files) is driven by the caller:
//! the library decides, the caller performs the action and reports back.

pub mod copy;
pub mod text;
pub mod transfer;
pub mod http;
pub mod cert;
pub mod session;

use vstd::prelude::*;

verus! {

/// The size of each direction's relay buffer unless the caller picks one.
pub const DEFAULT_BUF_SIZE: usize = 8192;

} // verus!
