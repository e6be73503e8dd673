use vstd::prelude::*;

verus! {

/// Where a report stands in the moderation workflow.
///
/// `Accepted` and `Denied` are terminal: no transition leaves them. The
/// derived order (`Unhandled < Reviewing < Accepted < Denied`) is for display.
#[derive(Clone, Copy, Debug, PartialEq, Eq, Structural, PartialOrd, Ord, Hash)]
pub enum ReportStatus {
    Unhandled,
    Reviewing,
    Accepted,
    Denied,
}

/// Number of distinct human claimants from which a report counts as under review.
pub const CLAIM_THRESHOLD: u64 = 2;

/// The status that a claim count selects for a report that is not terminal.
pub open spec fn claim_status_spec(claimants: nat) -> ReportStatus {
    if claimants >= CLAIM_THRESHOLD {
        ReportStatus::Reviewing
    } else {
        ReportStatus::Unhandled
    }
}

/// The status after the claimant count has been recomputed: terminal
/// statuses stay, the others follow the claim rule.
pub open spec fn after_claim_recount(status: ReportStatus, claimants: nat) -> ReportStatus {
    if status.is_terminal() {
        status
    } else {
        claim_status_spec(claimants)
    }
}

/// The status after a moderator accepted (`accepted`) or rejected the report.
pub open spec fn after_decision(status: ReportStatus, accepted: bool) -> ReportStatus {
    if status.is_terminal() {
        status
    } else if accepted {
        ReportStatus::Accepted
    } else {
        ReportStatus::Denied
    }
}

/// The persisted code of a status.
pub open spec fn status_code(status: ReportStatus) -> i64 {
    match status {
        ReportStatus::Unhandled => 0,
        ReportStatus::Reviewing => 1,
        ReportStatus::Accepted => 2,
        ReportStatus::Denied => 3,
    }
}

impl ReportStatus {
    /// Accepted and Denied end the workflow.
    pub open spec fn is_terminal_spec(self) -> bool {
        self == ReportStatus::Accepted || self == ReportStatus::Denied
    }

    /// Whether the status ends the workflow.
    #[verifier::when_used_as_spec(is_terminal_spec)]
    pub fn is_terminal(self) -> (r: bool)
        ensures
            r == self.is_terminal_spec(),
    {
        match self {
            ReportStatus::Accepted | ReportStatus::Denied => true,
            _ => false,
        }
    }

    /// The status stored under a persisted code, if the code is one.
    pub fn from_code(code: i64) -> (r: Option<ReportStatus>)
        ensures
            r matches Some(s) ==> status_code(s) == code,
            r is None <==> !(0 <= code <= 3),
    {
        match code {
            0 => Some(ReportStatus::Unhandled),
            1 => Some(ReportStatus::Reviewing),
            2 => Some(ReportStatus::Accepted),
            3 => Some(ReportStatus::Denied),
            _ => None,
        }
    }

    /// The code under which the status is persisted.
    pub fn code(self) -> (r: i64)
        ensures
            r == status_code(self),
    {
        match self {
            ReportStatus::Unhandled => 0,
            ReportStatus::Reviewing => 1,
            ReportStatus::Accepted => 2,
            ReportStatus::Denied => 3,
        }
    }

    /// The label shown to people for this status.
    pub fn into_human_status(self) -> (r: &'static str)
        ensures
            r@ == human_status_spec(self),
    {
        match self {
            ReportStatus::Unhandled => "😴 Unhandled",
            ReportStatus::Reviewing => "🔎 Reviewing",
            ReportStatus::Accepted => "✅ Accepted",
            ReportStatus::Denied => "❌ Denied",
        }
    }

    /// The embed colour (0xRRGGBB) of this status; unhandled reports have none.
    pub fn into_color(self) -> (r: Option<u32>)
        ensures
            r == color_spec(self),
    {
        match self {
            ReportStatus::Unhandled => None,
            ReportStatus::Reviewing => Some(0xADD8E6),
            ReportStatus::Denied => Some(0xFF0000),
            ReportStatus::Accepted => Some(0x00FF00),
        }
    }
}

/// The label of each status.
pub open spec fn human_status_spec(status: ReportStatus) -> Seq<char> {
    match status {
        ReportStatus::Unhandled => "😴 Unhandled"@,
        ReportStatus::Reviewing => "🔎 Reviewing"@,
        ReportStatus::Accepted => "✅ Accepted"@,
        ReportStatus::Denied => "❌ Denied"@,
    }
}

/// The colour of each status.
pub open spec fn color_spec(status: ReportStatus) -> Option<u32> {
    match status {
        ReportStatus::Unhandled => None,
        ReportStatus::Reviewing => Some(0xADD8E6u32),
        ReportStatus::Denied => Some(0xFF0000u32),
        ReportStatus::Accepted => Some(0x00FF00u32),
    }
}

/// The claim rule: two or more distinct human claimants put a report under
/// review, fewer put it back to unhandled.
pub fn claim_status(claimants: u64) -> (r: ReportStatus)
    ensures
        r == claim_status_spec(claimants as nat),
{
    if claimants >= CLAIM_THRESHOLD {
        ReportStatus::Reviewing
    } else {
        ReportStatus::Unhandled
    }
}

/// A terminal status is left by no claim recount and by no moderator decision.
pub proof fn lemma_terminal_is_final(status: ReportStatus, claimants: nat, accepted: bool)
    requires
        status.is_terminal(),
    ensures
        after_claim_recount(status, claimants) == status,
        after_decision(status, accepted) == status,
{
}

} // verus!
