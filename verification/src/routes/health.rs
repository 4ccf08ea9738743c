//! The liveness route: whether the service is up.

use vstd::prelude::*;

use crate::status::OK;

verus! {

/// What the liveness route reports.
#[derive(Clone, Copy, Debug, PartialEq, Eq)]
pub struct Health {
    pub status: &'static str,
}

/// The word that a live service reports.
pub open spec fn alive() -> Seq<char> {
    "ok"@
}

/// Answers the liveness probe: a success, and the word that says so. A
/// service that can answer is up.
pub fn handler() -> (res: (u16, Health))
    ensures
        res.0 == OK,
        res.1.status@ == alive(),
{
    (OK, Health { status: "ok" })
}

} // verus!
