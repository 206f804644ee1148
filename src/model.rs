use vstd::prelude::*;
use crate::address::Address;

verus! {

/// Longest display name, in characters.
pub const MAX_NAME_LEN: usize = 50;

/// Longest e-mail address, in characters.
pub const MAX_EMAIL_LEN: usize = 100;

/// Longest bounty title, in characters.
pub const MAX_TITLE_LEN: usize = 100;

/// Longest bounty description, in characters.
pub const MAX_DESCRIPTION_LEN: usize = 500;

/// Longest bounty location, in characters.
pub const MAX_LOCATION_LEN: usize = 100;

/// Longest submission link, in characters.
pub const MAX_LINK_LEN: usize = 200;

/// Where a bounty's reward waits between posting and payout.
#[derive(Clone, Copy, Debug, PartialEq, Eq, Structural)]
pub enum EscrowMode {
    /// The reward moves into a custody record at posting and out of it to the winner.
    Custodial,
    /// The reward moves from the creator's own balance to the winner at selection.
    Direct,
}

/// The lifecycle of a bounty: Open, then Claimed, then Completed.
#[derive(Clone, Copy, Debug, PartialEq, Eq, Structural)]
pub enum BountyStatus {
    Open,
    Claimed,
    Completed,
}

#[derive(Clone, Copy, Debug, PartialEq, Eq, Structural)]
pub enum BountyCategory {
    Tech,
    Solana,
    Web3,
    Web2,
    Design,
    Marketing,
    Other,
}

#[derive(Clone, Copy, Debug, PartialEq, Eq, Structural)]
pub enum BountyDifficulty {
    Easy,
    Medium,
    Hard,
    Expert,
}

/// A hunter's success rate, kept as the ratio it was computed from:
/// the rate is `100 * completed / applied` percent, and zero while `applied` is zero.
#[derive(Clone, Copy, Debug, PartialEq, Eq, Structural)]
pub struct SuccessRate {
    pub completed: u64,
    pub applied: u64,
}

impl SuccessRate {
    /// The rate of a profile that has done nothing yet.
    pub fn zero() -> (r: SuccessRate)
        ensures
            r == (SuccessRate { completed: 0, applied: 0 }),
    {
        SuccessRate { completed: 0, applied: 0 }
    }

    /// The rate in whole percent, rounded down.
    pub fn percent_floor(&self) -> (r: u128)
        ensures
            self.applied == 0 ==> r == 0,
            self.applied > 0 ==> r == (100 * self.completed) / (self.applied as int),
    {
        if self.applied == 0 {
            0
        } else {
            (100 * (self.completed as u128)) / (self.applied as u128)
        }
    }
}

/// A participant's profile.
#[derive(Clone, Debug)]
pub struct UserProfile {
    pub authority: Address,
    pub username: String,
    pub email: String,
    pub avatar: String,
    pub is_hunter: bool,
    pub is_client: bool,
    pub bounties_completed: u64,
    pub bounties_applied: u64,
    pub total_sol_earned: u64,
    pub success_rate: SuccessRate,
    pub bounties_posted: u64,
    pub total_sol_spent: u64,
    pub bounties_completed_as_client: u64,
    pub bounties_rewarded: u64,
}

/// A posted task with a fixed reward.
#[derive(Clone, Debug)]
pub struct Bounty {
    pub creator: Address,
    pub title: String,
    pub description: String,
    pub reward: u64,
    pub category: Option<BountyCategory>,
    pub difficulty: Option<BountyDifficulty>,
    pub location: String,
    pub time_limit: i64,
    pub status: BountyStatus,
    pub hunter: Option<Address>,
    pub created_at: i64,
}

/// A hunter's recorded work on a bounty.
#[derive(Clone, Debug)]
pub struct Submission {
    pub bounty: Address,
    pub hunter: Address,
    pub submission_link: String,
    pub submitted_at: i64,
    pub selected: bool,
}

impl Bounty {
    /// A hunter is recorded exactly when the bounty is no longer open.
    pub open spec fn wf(&self) -> bool {
        (self.status == BountyStatus::Open) == (self.hunter is None)
    }
}

/// The status reached from `s` by one step of the lifecycle, if any.
pub open spec fn next_status(s: BountyStatus) -> Option<BountyStatus> {
    match s {
        BountyStatus::Open => Some(BountyStatus::Claimed),
        BountyStatus::Claimed => Some(BountyStatus::Completed),
        BountyStatus::Completed => None,
    }
}

} // verus!
