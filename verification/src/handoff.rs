use vstd::prelude::*;

verus! {

/// The kind of handoff for which a share is derived.
///
/// The kind decides which variable of the dealer's bivariate polynomial is
/// fixed at the shareholder's encoding.
#[derive(Debug, Clone, Copy, PartialEq, Eq, Structural)]
pub enum HandoffKind {
    /// The initial dealing: the secret is shared for the first time.
    DealingPhase,
    /// The committee stays the same and its shares are refreshed.
    CommitteeUnchanged,
    /// The secret moves to a committee with different members.
    CommitteeChanged,
}

impl HandoffKind {
    /// Whether shares of this kind fix the first variable, `x`.
    pub open spec fn fixes_x(self) -> bool {
        self != HandoffKind::CommitteeChanged
    }
}

} // verus!
