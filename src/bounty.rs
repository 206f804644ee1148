use vstd::prelude::*;
use crate::address::Address;
use crate::error::{BountyError, ErrorCode, MarketError};
use crate::escrow::{payout_of, payout_transfer, Transfer};
use crate::model::{
    Bounty, BountyCategory, BountyDifficulty, BountyStatus, EscrowMode, SuccessRate, Submission,
    UserProfile, MAX_DESCRIPTION_LEN, MAX_LINK_LEN, MAX_LOCATION_LEN, MAX_TITLE_LEN,
};
use crate::text::char_count;

verus! {

/// Whether the texts of a bounty fit their bounds.
pub open spec fn bounty_text_fits(title: Seq<char>, description: Seq<char>, location: Seq<char>) -> bool {
    title.len() <= MAX_TITLE_LEN && description.len() <= MAX_DESCRIPTION_LEN
        && location.len() <= MAX_LOCATION_LEN
}

/// Why `creator`, with profile `p`, cannot post a bounty with these texts, if it cannot.
pub open spec fn create_error(
    p: UserProfile,
    creator: Address,
    title: Seq<char>,
    description: Seq<char>,
    location: Seq<char>,
) -> Option<MarketError> {
    if !bounty_text_fits(title, description, location) {
        Some(MarketError::Code(ErrorCode::TooLong))
    } else if p.authority != creator {
        Some(MarketError::AccountMismatch)
    } else if !p.is_client {
        Some(MarketError::Bounty(BountyError::NotAClient))
    } else if p.bounties_posted == u64::MAX {
        Some(MarketError::Bounty(BountyError::MathOverflow))
    } else {
        None
    }
}

/// `b` is the open bounty that `creator` posts with these terms at time `now`.
pub open spec fn is_new_bounty(
    b: Bounty,
    creator: Address,
    title: Seq<char>,
    description: Seq<char>,
    reward: u64,
    category: Option<BountyCategory>,
    difficulty: Option<BountyDifficulty>,
    location: Seq<char>,
    time_limit: i64,
    now: i64,
) -> bool {
    &&& b.creator == creator
    &&& b.title@ == title
    &&& b.description@ == description
    &&& b.reward == reward
    &&& b.category == category
    &&& b.difficulty == difficulty
    &&& b.location@ == location
    &&& b.time_limit == time_limit
    &&& b.status == BountyStatus::Open
    &&& b.hunter is None
    &&& b.created_at == now
}

/// `p` with one more bounty posted.
pub open spec fn posted(p: UserProfile) -> UserProfile {
    UserProfile { bounties_posted: (p.bounties_posted + 1) as u64, ..p }
}

/// Why `hunter`, with profile `p`, cannot claim `b`, if it cannot.
pub open spec fn claim_error(b: Bounty, p: UserProfile, hunter: Address) -> Option<MarketError> {
    if b.status != BountyStatus::Open {
        Some(MarketError::Bounty(BountyError::BountyNotOpen))
    } else if p.authority != hunter {
        Some(MarketError::AccountMismatch)
    } else if p.bounties_applied == u64::MAX {
        Some(MarketError::Bounty(BountyError::MathOverflow))
    } else {
        None
    }
}

/// `b` claimed by `hunter`.
pub open spec fn claimed(b: Bounty, hunter: Address) -> Bounty {
    Bounty { status: BountyStatus::Claimed, hunter: Some(hunter), ..b }
}

/// `p` with one more bounty applied for.
pub open spec fn applied(p: UserProfile) -> UserProfile {
    UserProfile { bounties_applied: (p.bounties_applied + 1) as u64, ..p }
}

/// Why `hunter` cannot submit `link` for `b` at time `now`, if it cannot.
pub open spec fn submit_error(b: Bounty, hunter: Address, link: Seq<char>, now: i64) -> Option<
    MarketError,
> {
    if link.len() > MAX_LINK_LEN {
        Some(MarketError::Code(ErrorCode::TooLong))
    } else if b.status != BountyStatus::Claimed {
        Some(MarketError::Code(ErrorCode::InvalidState))
    } else if now >= b.time_limit {
        Some(MarketError::Code(ErrorCode::BountyExpired))
    } else if b.hunter != Some(hunter) {
        Some(MarketError::Code(ErrorCode::Unauthorized))
    } else {
        None
    }
}

/// Whether the winner's profile can take the reward without a counter overflowing.
pub open spec fn credit_fits(p: UserProfile, reward: u64) -> bool {
    p.bounties_completed < u64::MAX && p.total_sol_earned + reward <= u64::MAX
}

/// Whether the creator's profile can record the payout without a counter overflowing.
pub open spec fn charge_fits(p: UserProfile, reward: u64, mode: EscrowMode) -> bool {
    &&& p.total_sol_spent + reward <= u64::MAX
    &&& p.bounties_completed_as_client < u64::MAX
    &&& mode == EscrowMode::Direct ==> p.bounties_rewarded < u64::MAX
}

/// The success rate after a completion, recomputed only when something was applied for.
pub open spec fn rate_after(p: UserProfile) -> SuccessRate {
    if p.bounties_applied > 0 {
        SuccessRate { completed: (p.bounties_completed + 1) as u64, applied: p.bounties_applied }
    } else {
        p.success_rate
    }
}

/// The winner's profile after being paid `reward`.
pub open spec fn credited(p: UserProfile, reward: u64) -> UserProfile {
    UserProfile {
        bounties_completed: (p.bounties_completed + 1) as u64,
        total_sol_earned: (p.total_sol_earned + reward) as u64,
        success_rate: rate_after(p),
        ..p
    }
}

/// The creator's profile after paying `reward`.
pub open spec fn charged(p: UserProfile, reward: u64, mode: EscrowMode) -> UserProfile {
    UserProfile {
        total_sol_spent: (p.total_sol_spent + reward) as u64,
        bounties_completed_as_client: (p.bounties_completed_as_client + 1) as u64,
        bounties_rewarded: if mode == EscrowMode::Direct {
            (p.bounties_rewarded + 1) as u64
        } else {
            p.bounties_rewarded
        },
        ..p
    }
}

/// Why `signer` cannot complete `b`, if it cannot: only once claimed, and only by its creator.
pub open spec fn select_error(b: Bounty, signer: Address) -> Option<MarketError> {
    if b.status != BountyStatus::Claimed {
        Some(MarketError::Bounty(BountyError::BountyNotClaimed))
    } else if b.creator != signer {
        Some(MarketError::Bounty(BountyError::Unauthorized))
    } else {
        None
    }
}

/// Why the payout to `winner` cannot be recorded on these profiles, if it cannot.
pub open spec fn select_profiles_error(
    b: Bounty,
    signer: Address,
    winner: Address,
    hunter_profile: UserProfile,
    client_profile: UserProfile,
    mode: EscrowMode,
) -> Option<MarketError> {
    if select_error(b, signer) is Some {
        select_error(b, signer)
    } else if hunter_profile.authority != winner || client_profile.authority != signer {
        Some(MarketError::AccountMismatch)
    } else if !credit_fits(hunter_profile, b.reward) || !charge_fits(client_profile, b.reward, mode) {
        Some(MarketError::Bounty(BountyError::MathOverflow))
    } else {
        None
    }
}

/// `b` completed.
pub open spec fn completed(b: Bounty) -> Bounty {
    Bounty { status: BountyStatus::Completed, ..b }
}

/// Posts a bounty for `creator`, whose profile `profile` counts one more bounty posted.
pub fn create_bounty(
    creator: Address,
    profile: &mut UserProfile,
    title: String,
    description: String,
    reward: u64,
    category: Option<BountyCategory>,
    difficulty: Option<BountyDifficulty>,
    location: String,
    time_limit: i64,
    now: i64,
) -> (r: Result<Bounty, MarketError>)
    ensures
        r is Err <==> create_error(*old(profile), creator, title@, description@, location@) is Some,
        r is Err ==> Some(r->Err_0) == create_error(
            *old(profile),
            creator,
            title@,
            description@,
            location@,
        ) && *final(profile) == *old(profile),
        r is Ok ==> *final(profile) == posted(*old(profile)) && is_new_bounty(
            r->Ok_0,
            creator,
            title@,
            description@,
            reward,
            category,
            difficulty,
            location@,
            time_limit,
            now,
        ),
{
    if char_count(title.as_str()) > MAX_TITLE_LEN || char_count(description.as_str())
        > MAX_DESCRIPTION_LEN || char_count(location.as_str()) > MAX_LOCATION_LEN {
        return Err(MarketError::Code(ErrorCode::TooLong));
    }
    if !profile.authority.same(&creator) {
        return Err(MarketError::AccountMismatch);
    }
    if !profile.is_client {
        return Err(MarketError::Bounty(BountyError::NotAClient));
    }
    match profile.bounties_posted.checked_add(1) {
        None => Err(MarketError::Bounty(BountyError::MathOverflow)),
        Some(n) => {
            profile.bounties_posted = n;
            Ok(
                Bounty {
                    creator,
                    title,
                    description,
                    reward,
                    category,
                    difficulty,
                    location,
                    time_limit,
                    status: BountyStatus::Open,
                    hunter: None,
                    created_at: now,
                },
            )
        },
    }
}

/// Claims an open bounty for `hunter`, whose profile counts one more bounty applied for.
pub fn claim_bounty(bounty: &mut Bounty, hunter_profile: &mut UserProfile, hunter: Address) -> (r:
    Result<(), MarketError>)
    ensures
        r is Err <==> claim_error(*old(bounty), *old(hunter_profile), hunter) is Some,
        r is Err ==> Some(r->Err_0) == claim_error(*old(bounty), *old(hunter_profile), hunter)
            && *final(bounty) == *old(bounty) && *final(hunter_profile) == *old(hunter_profile),
        r is Ok ==> *final(bounty) == claimed(*old(bounty), hunter) && *final(hunter_profile)
            == applied(*old(hunter_profile)),
{
    if bounty.status != BountyStatus::Open {
        return Err(MarketError::Bounty(BountyError::BountyNotOpen));
    }
    if !hunter_profile.authority.same(&hunter) {
        return Err(MarketError::AccountMismatch);
    }
    match hunter_profile.bounties_applied.checked_add(1) {
        None => Err(MarketError::Bounty(BountyError::MathOverflow)),
        Some(n) => {
            bounty.status = BountyStatus::Claimed;
            bounty.hunter = Some(hunter);
            hunter_profile.bounties_applied = n;
            Ok(())
        },
    }
}

/// Records the work of `hunter` on the bounty at `bounty_address`, strictly before its deadline.
pub fn submit_work(
    bounty: &Bounty,
    bounty_address: Address,
    hunter: Address,
    submission_link: String,
    now: i64,
) -> (r: Result<Submission, MarketError>)
    ensures
        r is Err <==> submit_error(*bounty, hunter, submission_link@, now) is Some,
        r is Err ==> Some(r->Err_0) == submit_error(*bounty, hunter, submission_link@, now),
        r is Ok ==> ({
            let s = r->Ok_0;
            &&& s.bounty == bounty_address
            &&& s.hunter == hunter
            &&& s.submission_link@ == submission_link@
            &&& s.submitted_at == now
            &&& !s.selected
        }),
{
    if char_count(submission_link.as_str()) > MAX_LINK_LEN {
        return Err(MarketError::Code(ErrorCode::TooLong));
    }
    if bounty.status != BountyStatus::Claimed {
        return Err(MarketError::Code(ErrorCode::InvalidState));
    }
    if now >= bounty.time_limit {
        return Err(MarketError::Code(ErrorCode::BountyExpired));
    }
    let is_hunter = match &bounty.hunter {
        Some(h) => h.same(&hunter),
        None => false,
    };
    if !is_hunter {
        return Err(MarketError::Code(ErrorCode::Unauthorized));
    }
    Ok(
        Submission {
            bounty: bounty_address,
            hunter,
            submission_link,
            submitted_at: now,
            selected: false,
        },
    )
}

/// Checks that `signer` may complete `bounty`.
pub fn check_select(bounty: &Bounty, signer: Address) -> (r: Result<(), MarketError>)
    ensures
        r is Err <==> select_error(*bounty, signer) is Some,
        r is Err ==> Some(r->Err_0) == select_error(*bounty, signer),
{
    if bounty.status != BountyStatus::Claimed {
        return Err(MarketError::Bounty(BountyError::BountyNotClaimed));
    }
    if !bounty.creator.same(&signer) {
        return Err(MarketError::Bounty(BountyError::Unauthorized));
    }
    Ok(())
}

/// Whether the winner's profile can take `reward`.
pub fn can_credit(p: &UserProfile, reward: u64) -> (r: bool)
    ensures
        r == credit_fits(*p, reward),
{
    p.bounties_completed < u64::MAX && p.total_sol_earned <= u64::MAX - reward
}

/// Whether the creator's profile can record paying `reward`.
pub fn can_charge(p: &UserProfile, reward: u64, mode: EscrowMode) -> (r: bool)
    ensures
        r == charge_fits(*p, reward, mode),
{
    p.total_sol_spent <= u64::MAX - reward && p.bounties_completed_as_client < u64::MAX && (
    mode != EscrowMode::Direct || p.bounties_rewarded < u64::MAX)
}

/// Records on the winner's profile one more completed bounty and `reward` more earned,
/// and recomputes its success rate.
pub fn credit_hunter(p: &mut UserProfile, reward: u64)
    requires
        credit_fits(*old(p), reward),
    ensures
        *final(p) == credited(*old(p), reward),
{
    p.bounties_completed = p.bounties_completed + 1;
    p.total_sol_earned = p.total_sol_earned + reward;
    if p.bounties_applied > 0 {
        p.success_rate = SuccessRate { completed: p.bounties_completed, applied: p.bounties_applied };
    }
}

/// Records on the creator's profile the payout of `reward`.
pub fn charge_client(p: &mut UserProfile, reward: u64, mode: EscrowMode)
    requires
        charge_fits(*old(p), reward, mode),
    ensures
        *final(p) == charged(*old(p), reward, mode),
{
    p.total_sol_spent = p.total_sol_spent + reward;
    p.bounties_completed_as_client = p.bounties_completed_as_client + 1;
    if mode == EscrowMode::Direct {
        p.bounties_rewarded = p.bounties_rewarded + 1;
    }
}

/// Completes a claimed bounty in favour of `winner`, on behalf of its creator `signer`:
/// updates both profiles and returns the movement that pays the reward.
pub fn select_winner(
    mode: EscrowMode,
    bounty: &mut Bounty,
    bounty_address: Address,
    signer: Address,
    winner: Address,
    hunter_profile: &mut UserProfile,
    client_profile: &mut UserProfile,
) -> (r: Result<Transfer, MarketError>)
    ensures
        r is Err <==> select_profiles_error(
            *old(bounty),
            signer,
            winner,
            *old(hunter_profile),
            *old(client_profile),
            mode,
        ) is Some,
        r is Err ==> Some(r->Err_0) == select_profiles_error(
            *old(bounty),
            signer,
            winner,
            *old(hunter_profile),
            *old(client_profile),
            mode,
        ) && *final(bounty) == *old(bounty) && *final(hunter_profile) == *old(hunter_profile)
            && *final(client_profile) == *old(client_profile),
        r is Ok ==> r->Ok_0 == payout_of(mode, signer, bounty_address, winner, old(bounty).reward)
            && *final(bounty) == completed(*old(bounty)) && *final(hunter_profile) == credited(
            *old(hunter_profile),
            old(bounty).reward,
        ) && *final(client_profile) == charged(*old(client_profile), old(bounty).reward, mode),
{
    check_select(bounty, signer)?;
    if !hunter_profile.authority.same(&winner) || !client_profile.authority.same(&signer) {
        return Err(MarketError::AccountMismatch);
    }
    let reward = bounty.reward;
    if !can_credit(hunter_profile, reward) || !can_charge(client_profile, reward, mode) {
        return Err(MarketError::Bounty(BountyError::MathOverflow));
    }
    let t = payout_transfer(mode, signer, bounty_address, winner, reward);
    credit_hunter(hunter_profile, reward);
    charge_client(client_profile, reward, mode);
    bounty.status = BountyStatus::Completed;
    Ok(t)
}

} // verus!
