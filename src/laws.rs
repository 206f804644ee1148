use vstd::prelude::*;
use crate::address::{Address, PairKey};
use crate::bounty::{completed, claimed};
use crate::error::{BountyError, ErrorCode, MarketError};
use crate::ledger::{
    claimed_view, create_profile_outcome, created_view, delete_profile_outcome,
    edit_profile_outcome, ledger_claim_error, ledger_create_error, ledger_select_error,
    ledger_submit_error, selected_view, title_taken, LedgerView,
};
use crate::model::{next_status, Bounty, BountyStatus, EscrowMode, Submission, SuccessRate, UserProfile};
use crate::registry::profile_text_fits;
use crate::text::{avatar_of, first_two, has_white_space, initials, trimmed};

verus! {

/// A display name whose trimmed form holds white space has the initials of its words as
/// avatar; any other has at most its first two characters.
pub proof fn law_avatar(name: Seq<char>)
    ensures
        has_white_space(trimmed(name)) ==> avatar_of(name) == initials(trimmed(name)),
        !has_white_space(trimmed(name)) ==> avatar_of(name) == first_two(trimmed(name)),
        !has_white_space(trimmed(name)) && trimmed(name).len() <= 2 ==> avatar_of(name) == trimmed(
            name,
        ),
{
}

/// Once `signer` has a profile, creating another one for it fails.
pub proof fn law_one_profile_per_owner(
    v: LedgerView,
    signer: Address,
    p: UserProfile,
    name: Seq<char>,
    email: Seq<char>,
)
    ensures
        create_profile_outcome(
            LedgerView { profiles: v.profiles.insert(signer, p), ..v },
            signer,
            name,
            email,
        ) == Err::<(), MarketError>(MarketError::AccountInUse),
{
}

/// Editing or deleting a profile on behalf of anyone but its owner fails as unauthorized.
pub proof fn law_only_owner_changes_profile(
    v: LedgerView,
    signer: Address,
    owner: Address,
    name: Seq<char>,
    email: Seq<char>,
)
    requires
        v.inv(),
        v.profiles.contains_key(owner),
        signer != owner,
        profile_text_fits(name, email),
    ensures
        edit_profile_outcome(v, signer, owner, name, email) == Err::<(), MarketError>(
            MarketError::Bounty(BountyError::Unauthorized),
        ),
        delete_profile_outcome(v, signer, owner) == Err::<(), MarketError>(
            MarketError::Bounty(BountyError::Unauthorized),
        ),
{
}

/// The bounty at `a` is unchanged in status from `m1` to `m2`, or advanced by one step.
pub open spec fn steps_forward(m1: Map<Address, Bounty>, m2: Map<Address, Bounty>, a: Address) -> bool {
    m1.contains_key(a) ==> m2.contains_key(a) && (m2[a].status == m1[a].status || Some(
        m2[a].status,
    ) == next_status(m1[a].status))
}

/// Every successful operation leaves each bounty's status as it was or moves it one step
/// along Open, Claimed, Completed; claiming needs Open and completing needs Claimed.
pub proof fn law_status_steps_forward(
    v: LedgerView,
    signer: Address,
    at: Address,
    winner: Address,
    b: Bounty,
    key: PairKey,
    s: Submission,
    a: Address,
)
    requires
        v.inv(),
    ensures
        !v.bounties.contains_key(at) ==> steps_forward(
            v.bounties,
            created_view(v, signer, at, b).bounties,
            a,
        ),
        ledger_claim_error(v, signer, at) is None ==> v.bounties[at].status == BountyStatus::Open
            && claimed_view(v, signer, at).bounties[at].status == BountyStatus::Claimed
            && steps_forward(v.bounties, claimed_view(v, signer, at).bounties, a),
        ledger_select_error(v, signer, at, winner) is None ==> v.bounties[at].status
            == BountyStatus::Claimed && selected_view(v, signer, at, winner).bounties[at].status
            == BountyStatus::Completed && steps_forward(
            v.bounties,
            selected_view(v, signer, at, winner).bounties,
            a,
        ),
        steps_forward(v.bounties, LedgerView { submissions: v.submissions.insert(key, s), ..v }.bounties, a),
{
    if ledger_claim_error(v, signer, at) is None {
        assert(claimed_view(v, signer, at).bounties[at] == claimed(v.bounties[at], signer));
    }
    if ledger_select_error(v, signer, at, winner) is None {
        assert(selected_view(v, signer, at, winner).bounties[at] == completed(v.bounties[at]));
    }
}

/// A bounty that is already claimed or completed cannot be claimed.
pub proof fn law_claim_needs_open(v: LedgerView, signer: Address, at: Address)
    requires
        v.inv(),
        v.bounties.contains_key(at),
        v.profiles.contains_key(signer),
        v.bounties[at].status != BountyStatus::Open,
    ensures
        ledger_claim_error(v, signer, at) == Some(MarketError::Bounty(BountyError::BountyNotOpen)),
{
}

/// A bounty that is open or already completed cannot be completed, whoever asks.
pub proof fn law_select_needs_claimed(v: LedgerView, signer: Address, at: Address, winner: Address)
    requires
        v.inv(),
        v.bounties.contains_key(at),
        v.bounties[at].status != BountyStatus::Claimed,
    ensures
        ledger_select_error(v, signer, at, winner) == Some(
            MarketError::Bounty(BountyError::BountyNotClaimed),
        ),
{
}

/// A creator cannot post a second bounty with the title of one it already has.
pub proof fn law_one_bounty_per_title(
    v: LedgerView,
    signer: Address,
    at: Address,
    title: Seq<char>,
    description: Seq<char>,
    reward: u64,
    location: Seq<char>,
)
    requires
        v.inv(),
        title_taken(v.bounties, signer, title),
    ensures
        ledger_create_error(v, signer, at, title, description, reward, location) == Some(
            MarketError::AccountInUse,
        ),
{
}

/// Work submitted at or after the deadline is refused, even while the bounty is claimed.
pub proof fn law_no_late_submission(v: LedgerView, signer: Address, at: Address, link: Seq<char>, now: i64)
    requires
        v.inv(),
        v.bounties.contains_key(at),
        !v.submissions.contains_key(PairKey { first: at, second: signer }),
        link.len() <= crate::model::MAX_LINK_LEN,
        v.bounties[at].status == BountyStatus::Claimed,
        now >= v.bounties[at].time_limit,
    ensures
        ledger_submit_error(v, signer, at, link, now) == Some(
            MarketError::Code(ErrorCode::BountyExpired),
        ),
{
}

/// In the custodial mode, custody holds the reward right after posting, and right after
/// completion it holds nothing while the winner's balance has grown by exactly the reward.
pub proof fn law_custody(v: LedgerView, signer: Address, at: Address, b: Bounty, winner: Address)
    requires
        v.inv(),
        v.mode == EscrowMode::Custodial,
    ensures
        ledger_create_error(v, signer, at, b.title@, b.description@, b.reward, b.location@) is None
            ==> created_view(v, signer, at, b).custody_balance(at) == b.reward,
        ledger_select_error(v, signer, at, winner) is None ==> ({
            let w = selected_view(v, signer, at, winner);
            &&& v.custody_balance(at) == v.bounties[at].reward
            &&& w.custody_balance(at) == 0
            &&& w.balance(winner) == v.balance(winner) + v.bounties[at].reward
        }),
{
}

/// After completion the winner's success rate is `100 * completed / applied` over its new
/// counters when it has applied for anything, and unchanged otherwise.
pub proof fn law_success_rate(v: LedgerView, signer: Address, at: Address, winner: Address)
    requires
        v.inv(),
        ledger_select_error(v, signer, at, winner) is None,
    ensures
        ({
            let before = v.profiles[winner];
            let after = selected_view(v, signer, at, winner).profiles[winner];
            &&& after.bounties_completed == before.bounties_completed + 1
            &&& after.bounties_applied == before.bounties_applied
            &&& before.bounties_applied > 0 ==> after.success_rate == SuccessRate {
                completed: after.bounties_completed,
                applied: after.bounties_applied,
            }
            &&& before.bounties_applied == 0 ==> after.success_rate == before.success_rate
        }),
{
}

/// Every counter of `q` is at least the same counter of `p`.
pub open spec fn counters_grow(p: UserProfile, q: UserProfile) -> bool {
    &&& p.bounties_completed <= q.bounties_completed
    &&& p.bounties_applied <= q.bounties_applied
    &&& p.total_sol_earned <= q.total_sol_earned
    &&& p.bounties_posted <= q.bounties_posted
    &&& p.total_sol_spent <= q.total_sol_spent
    &&& p.bounties_completed_as_client <= q.bounties_completed_as_client
    &&& p.bounties_rewarded <= q.bounties_rewarded
}

/// Whether every profile of `v` is still in `w` with no counter lower.
pub open spec fn no_counter_decreases(v: LedgerView, w: LedgerView) -> bool {
    forall|a: Address| #[trigger] v.profiles.contains_key(a) ==> w.profiles.contains_key(a)
        && counters_grow(v.profiles[a], w.profiles[a])
}

/// Posting, claiming and completing a bounty never lower a counter of any profile.
pub proof fn law_counters_never_decrease(
    v: LedgerView,
    signer: Address,
    at: Address,
    winner: Address,
    b: Bounty,
)
    requires
        v.inv(),
    ensures
        ledger_create_error(v, signer, at, b.title@, b.description@, b.reward, b.location@) is None
            ==> no_counter_decreases(v, created_view(v, signer, at, b)),
        ledger_claim_error(v, signer, at) is None ==> no_counter_decreases(
            v,
            claimed_view(v, signer, at),
        ),
        ledger_select_error(v, signer, at, winner) is None ==> no_counter_decreases(
            v,
            selected_view(v, signer, at, winner),
        ),
{
}

} // verus!
