//! The HTTP status codes that the services answer with.
use vstd::prelude::*;

verus! {

/// `200 OK`.
pub const OK: u16 = 200;

/// `201 Created`.
pub const CREATED: u16 = 201;

/// `404 Not Found`.
pub const NOT_FOUND: u16 = 404;

} // verus!
