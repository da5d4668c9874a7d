//! What the three network surfaces answer.

use vstd::prelude::*;

pub mod auth;
pub mod cache_server;
pub mod instance_server;
pub mod proxy_server;

verus! {

/// The status of a request that was served.
pub const OK: u16 = 200;

/// The status of a request that was refused for what it holds.
pub const BAD_REQUEST: u16 = 400;

/// The status of a lookup that found nothing.
pub const NOT_FOUND: u16 = 404;

/// The status of a request that the balancer failed to serve.
pub const INTERNAL_SERVER_ERROR: u16 = 500;

/// The status of a request whose backend could not be reached.
pub const BAD_GATEWAY: u16 = 502;

/// An answer that a surface writes itself: a status and a short text.
#[derive(Debug)]
pub struct Reply {
    pub status: u16,
    pub body: String,
}

} // verus!
