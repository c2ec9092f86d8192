use vstd::prelude::*;

pub mod newsletters;
pub mod subscriptions;

verus! {

/// The HTTP status answered for a refused request: Bad Request.
pub const BAD_REQUEST: u16 = 400;

/// The HTTP status answered for a failure on the server's side: Internal
/// Server Error.
pub const INTERNAL_SERVER_ERROR: u16 = 500;

} // verus!
