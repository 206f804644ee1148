use vstd::prelude::*;
use crate::address::Address;
use crate::error::{BountyError, ErrorCode, MarketError};
use crate::model::{SuccessRate, UserProfile, MAX_EMAIL_LEN, MAX_NAME_LEN};
use crate::text::{avatar_of, char_count, process_avatar};

verus! {

/// Whether a display name and an e-mail address fit their bounds.
pub open spec fn profile_text_fits(name: Seq<char>, email: Seq<char>) -> bool {
    name.len() <= MAX_NAME_LEN && email.len() <= MAX_EMAIL_LEN
}

/// `p` is the profile that `authority` creates with the given name, e-mail and roles.
pub open spec fn is_new_profile(
    p: UserProfile,
    authority: Address,
    name: Seq<char>,
    email: Seq<char>,
    is_hunter: bool,
    is_client: bool,
) -> bool {
    &&& p.authority == authority
    &&& p.username@ == name
    &&& p.email@ == email
    &&& p.avatar@ == avatar_of(name)
    &&& p.is_hunter == is_hunter
    &&& p.is_client == is_client
    &&& p.bounties_completed == 0
    &&& p.bounties_applied == 0
    &&& p.total_sol_earned == 0
    &&& p.success_rate == SuccessRate { completed: 0, applied: 0 }
    &&& p.bounties_posted == 0
    &&& p.total_sol_spent == 0
    &&& p.bounties_completed_as_client == 0
    &&& p.bounties_rewarded == 0
}

/// `new` is `old` with its name, e-mail and avatar replaced, and nothing else changed.
pub open spec fn is_edited_profile(
    old: UserProfile,
    new: UserProfile,
    name: Seq<char>,
    email: Seq<char>,
) -> bool {
    &&& new.username@ == name
    &&& new.email@ == email
    &&& new.avatar@ == avatar_of(name)
    &&& new == UserProfile { username: new.username, email: new.email, avatar: new.avatar, ..old }
}

/// The outcome of an edit of `p` by `signer`.
pub open spec fn edit_outcome(
    p: UserProfile,
    signer: Address,
    name: Seq<char>,
    email: Seq<char>,
) -> Result<(), MarketError> {
    if p.authority != signer {
        Err(MarketError::Bounty(BountyError::Unauthorized))
    } else if !profile_text_fits(name, email) {
        Err(MarketError::Code(ErrorCode::TooLong))
    } else {
        Ok(())
    }
}

/// Checks a display name and an e-mail address against their bounds.
pub fn check_profile_text(name: &str, email: &str) -> (r: Result<(), MarketError>)
    ensures
        r is Ok <==> profile_text_fits(name@, email@),
        r is Err ==> r == Err::<(), MarketError>(MarketError::Code(ErrorCode::TooLong)),
{
    if char_count(name) > MAX_NAME_LEN || char_count(email) > MAX_EMAIL_LEN {
        Err(MarketError::Code(ErrorCode::TooLong))
    } else {
        Ok(())
    }
}

/// Builds the profile of `authority`, with zeroed counters and a derived avatar.
pub fn init_user_profile(
    authority: Address,
    username: String,
    email: String,
    is_hunter: bool,
    is_client: bool,
) -> (r: Result<UserProfile, MarketError>)
    ensures
        r is Ok <==> profile_text_fits(username@, email@),
        r is Err ==> r->Err_0 == MarketError::Code(ErrorCode::TooLong),
        r is Ok ==> is_new_profile(r->Ok_0, authority, username@, email@, is_hunter, is_client),
{
    check_profile_text(username.as_str(), email.as_str())?;
    let avatar = process_avatar(username.as_str());
    Ok(UserProfile {
        authority,
        username,
        email,
        avatar,
        is_hunter,
        is_client,
        bounties_completed: 0,
        bounties_applied: 0,
        total_sol_earned: 0,
        success_rate: SuccessRate::zero(),
        bounties_posted: 0,
        total_sol_spent: 0,
        bounties_completed_as_client: 0,
        bounties_rewarded: 0,
    })
}

/// Replaces the name and e-mail of a profile, on behalf of its owner.
pub fn edit_profile(
    profile: &mut UserProfile,
    signer: Address,
    name: String,
    email: String,
) -> (r: Result<(), MarketError>)
    ensures
        r == edit_outcome(*old(profile), signer, name@, email@),
        r is Err ==> *final(profile) == *old(profile),
        r is Ok ==> is_edited_profile(*old(profile), *final(profile), name@, email@),
{
    if !profile.authority.same(&signer) {
        return Err(MarketError::Bounty(BountyError::Unauthorized));
    }
    check_profile_text(name.as_str(), email.as_str())?;
    let avatar = process_avatar(name.as_str());
    profile.username = name;
    profile.email = email;
    profile.avatar = avatar;
    Ok(())
}

/// Checks that `signer` may delete `profile`: only its owner may.
pub fn delete_profile(profile: &UserProfile, signer: Address) -> (r: Result<(), MarketError>)
    ensures
        r is Ok <==> profile.authority == signer,
        r is Err ==> r == Err::<(), MarketError>(MarketError::Bounty(BountyError::Unauthorized)),
{
    if profile.authority.same(&signer) {
        Ok(())
    } else {
        Err(MarketError::Bounty(BountyError::Unauthorized))
    }
}

} // verus!
