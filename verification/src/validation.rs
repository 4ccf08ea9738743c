//! What a failed rule leaves behind.

use vstd::prelude::*;

verus! {

/// One rule that one field of a record broke.
#[derive(Clone, Copy, Debug, PartialEq, Eq)]
pub struct ValidationViolation {
    /// The name of the field.
    pub field: &'static str,
    /// A short machine-readable tag for the rule.
    pub code: &'static str,
    /// What to tell the caller.
    pub message: &'static str,
}

/// A [`ValidationViolation`] with its strings as sequences of characters.
pub struct ViolationView {
    pub field: Seq<char>,
    pub code: Seq<char>,
    pub message: Seq<char>,
}

impl View for ValidationViolation {
    type V = ViolationView;

    open spec fn view(&self) -> ViolationView {
        ViolationView { field: self.field@, code: self.code@, message: self.message@ }
    }
}

/// The views of a list of violations, in the list's order.
pub open spec fn violation_views(violations: Seq<ValidationViolation>) -> Seq<ViolationView> {
    Seq::new(violations.len(), |i: int| violations[i]@)
}

} // verus!
