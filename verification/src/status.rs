//! The status codes that the service answers with.

use vstd::prelude::*;

verus! {

/// The status code of a response that carries an answer.
pub const OK: u16 = 200;

/// The status code of a response to a request that the caller got wrong.
pub const BAD_REQUEST: u16 = 400;

/// The status code of a response to a request that the server got wrong.
pub const INTERNAL_SERVER_ERROR: u16 = 500;

} // verus!
