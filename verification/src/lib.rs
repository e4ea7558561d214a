//! Client library for the Foxhole war API.
//!
//! The library models the API's JSON responses as typed values, decodes a
//! parsed JSON tree into them strictly (unknown enumeration tags, missing
//! required fields and type mismatches are errors), and builds the endpoint
//! URLs. The HTTP transport lives outside the library; callers hand the
//! outcome of a request to the functions in [`client`].

use vstd::prelude::*;

pub mod client;
pub mod decode;
pub mod encode;
pub mod json;
pub mod response_types;
pub mod util;

verus! {

/// Shard of the API: each shard is an independently hosted game world.
#[derive(Debug, Clone, Copy, PartialEq, Eq, Structural)]
pub enum Shard {
    Live1,
    Live2,
}

/// Error of one client call. Both kinds are fatal to the call and carry no
/// partial value: a connection failure or non-success status is
/// `TransportError`; malformed JSON, a missing required field, a type
/// mismatch or an unknown enumeration tag is `DecodeError`.
#[derive(Debug, Clone, Copy, PartialEq, Eq, Structural)]
pub enum ApiError {
    TransportError,
    DecodeError,
}

} // verus!
