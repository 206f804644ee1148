use bonthun::address::Address;
use bonthun::bounty::{claim_bounty, create_bounty, select_winner, submit_work};
use bonthun::error::{BountyError, ErrorCode, MarketError};
use bonthun::escrow::{funding_transfer, payout_transfer, Holder, Transfer};
use bonthun::model::{BountyCategory, BountyDifficulty, BountyStatus, EscrowMode, SuccessRate, UserProfile};
use bonthun::registry::{delete_profile, edit_profile, init_user_profile};

fn addr(n: u8) -> Address {
    Address { bytes: [n; 32] }
}

fn profile(owner: Address, hunter: bool, client: bool) -> UserProfile {
    init_user_profile(owner, "Some One".to_string(), "one@example.com".to_string(), hunter, client)
        .unwrap()
}

#[test]
fn init_profile_sets_fields_and_zero_counters() {
    let p = init_user_profile(addr(1), "Jane Roe".to_string(), "j@r.io".to_string(), true, false)
        .unwrap();
    assert_eq!(p.authority, addr(1));
    assert_eq!(p.username, "Jane Roe");
    assert_eq!(p.email, "j@r.io");
    assert_eq!(p.avatar, "JR");
    assert!(p.is_hunter);
    assert!(!p.is_client);
    assert_eq!(p.bounties_applied, 0);
    assert_eq!(p.success_rate, SuccessRate { completed: 0, applied: 0 });
}

#[test]
fn init_profile_rejects_long_name_and_email() {
    let long_name = "n".repeat(51);
    let r = init_user_profile(addr(1), long_name, "e".to_string(), true, true);
    assert_eq!(r.unwrap_err(), MarketError::Code(ErrorCode::TooLong));
    let long_mail = "m".repeat(101);
    let r = init_user_profile(addr(1), "ok".to_string(), long_mail, true, true);
    assert_eq!(r.unwrap_err(), MarketError::Code(ErrorCode::TooLong));
    let edge = init_user_profile(addr(1), "n".repeat(50), "m".repeat(100), true, true);
    assert!(edge.is_ok());
}

#[test]
fn edit_profile_by_owner_recomputes_avatar() {
    let mut p = profile(addr(1), true, true);
    edit_profile(&mut p, addr(1), "zed".to_string(), "z@z".to_string()).unwrap();
    assert_eq!(p.username, "zed");
    assert_eq!(p.email, "z@z");
    assert_eq!(p.avatar, "ze");
}

#[test]
fn edit_profile_by_stranger_is_unauthorized() {
    let mut p = profile(addr(1), true, true);
    let r = edit_profile(&mut p, addr(2), "zed".to_string(), "z@z".to_string());
    assert_eq!(r, Err(MarketError::Bounty(BountyError::Unauthorized)));
    assert_eq!(p.username, "Some One");
}

#[test]
fn edit_profile_by_stranger_is_unauthorized_even_with_long_name() {
    let mut p = profile(addr(1), true, true);
    let r = edit_profile(&mut p, addr(2), "n".repeat(51), "z@z".to_string());
    assert_eq!(r, Err(MarketError::Bounty(BountyError::Unauthorized)));
    let r = edit_profile(&mut p, addr(1), "n".repeat(51), "z@z".to_string());
    assert_eq!(r, Err(MarketError::Code(ErrorCode::TooLong)));
    assert_eq!(p.username, "Some One");
}

#[test]
fn claim_of_taken_bounty_is_not_open_whatever_profile() {
    let mut client = profile(addr(1), false, true);
    let mut b = create_bounty(
        addr(1),
        &mut client,
        "t".to_string(),
        "d".to_string(),
        1,
        None,
        None,
        "l".to_string(),
        5,
        0,
    )
    .unwrap();
    let mut hunter = profile(addr(2), true, false);
    claim_bounty(&mut b, &mut hunter, addr(2)).unwrap();
    let mut other = profile(addr(4), true, false);
    let r = claim_bounty(&mut b, &mut other, addr(3));
    assert_eq!(r, Err(MarketError::Bounty(BountyError::BountyNotOpen)));
}

#[test]
fn delete_profile_needs_owner() {
    let p = profile(addr(1), true, true);
    assert_eq!(delete_profile(&p, addr(1)), Ok(()));
    assert_eq!(delete_profile(&p, addr(2)), Err(MarketError::Bounty(BountyError::Unauthorized)));
}

#[test]
fn create_bounty_counts_posting() {
    let mut client = profile(addr(1), false, true);
    let b = create_bounty(
        addr(1),
        &mut client,
        "Fix bug".to_string(),
        "desc".to_string(),
        500,
        Some(BountyCategory::Tech),
        Some(BountyDifficulty::Hard),
        "remote".to_string(),
        1_000,
        10,
    )
    .unwrap();
    assert_eq!(client.bounties_posted, 1);
    assert_eq!(b.status, BountyStatus::Open);
    assert_eq!(b.hunter, None);
    assert_eq!(b.created_at, 10);
    assert_eq!(b.reward, 500);
    assert_eq!(b.category, Some(BountyCategory::Tech));
}

#[test]
fn create_bounty_needs_client_role() {
    let mut hunter = profile(addr(1), true, false);
    let r = create_bounty(
        addr(1),
        &mut hunter,
        "t".to_string(),
        "d".to_string(),
        1,
        None,
        None,
        "l".to_string(),
        5,
        0,
    );
    assert_eq!(r.unwrap_err(), MarketError::Bounty(BountyError::NotAClient));
    assert_eq!(hunter.bounties_posted, 0);
}

#[test]
fn create_bounty_rejects_long_texts() {
    let mut client = profile(addr(1), false, true);
    let r = create_bounty(
        addr(1),
        &mut client,
        "t".repeat(101),
        "d".to_string(),
        1,
        None,
        None,
        "l".to_string(),
        5,
        0,
    );
    assert_eq!(r.unwrap_err(), MarketError::Code(ErrorCode::TooLong));
    let r = create_bounty(
        addr(1),
        &mut client,
        "t".to_string(),
        "d".repeat(501),
        1,
        None,
        None,
        "l".to_string(),
        5,
        0,
    );
    assert_eq!(r.unwrap_err(), MarketError::Code(ErrorCode::TooLong));
}

#[test]
fn create_bounty_with_wrong_profile_is_mismatch() {
    let mut client = profile(addr(2), false, true);
    let r = create_bounty(
        addr(1),
        &mut client,
        "t".to_string(),
        "d".to_string(),
        1,
        None,
        None,
        "l".to_string(),
        5,
        0,
    );
    assert_eq!(r.unwrap_err(), MarketError::AccountMismatch);
}

#[test]
fn claim_overflow_is_math_overflow() {
    let mut client = profile(addr(1), false, true);
    let mut b = create_bounty(
        addr(1),
        &mut client,
        "t".to_string(),
        "d".to_string(),
        1,
        None,
        None,
        "l".to_string(),
        5,
        0,
    )
    .unwrap();
    let mut hunter = profile(addr(2), true, false);
    hunter.bounties_applied = u64::MAX;
    let r = claim_bounty(&mut b, &mut hunter, addr(2));
    assert_eq!(r, Err(MarketError::Bounty(BountyError::MathOverflow)));
    assert_eq!(b.status, BountyStatus::Open);
    assert_eq!(b.hunter, None);
}

#[test]
fn claim_submit_select_on_records() {
    let mut client = profile(addr(1), false, true);
    let mut b = create_bounty(
        addr(1),
        &mut client,
        "t".to_string(),
        "d".to_string(),
        70,
        None,
        None,
        "l".to_string(),
        100,
        0,
    )
    .unwrap();
    let mut hunter = profile(addr(2), true, false);
    claim_bounty(&mut b, &mut hunter, addr(2)).unwrap();
    assert_eq!(b.status, BountyStatus::Claimed);
    assert_eq!(b.hunter, Some(addr(2)));
    assert_eq!(hunter.bounties_applied, 1);
    let again = claim_bounty(&mut b, &mut hunter, addr(2));
    assert_eq!(again, Err(MarketError::Bounty(BountyError::BountyNotOpen)));

    let s = submit_work(&b, addr(9), addr(2), "https://x.io".to_string(), 50).unwrap();
    assert_eq!(s.bounty, addr(9));
    assert_eq!(s.hunter, addr(2));
    assert_eq!(s.submission_link, "https://x.io");
    assert_eq!(s.submitted_at, 50);
    assert!(!s.selected);
    let stranger = submit_work(&b, addr(9), addr(3), "l".to_string(), 50);
    assert_eq!(stranger.unwrap_err(), MarketError::Code(ErrorCode::Unauthorized));
    let late = submit_work(&b, addr(9), addr(2), "l".to_string(), 100);
    assert_eq!(late.unwrap_err(), MarketError::Code(ErrorCode::BountyExpired));
    let long = submit_work(&b, addr(9), addr(2), "l".repeat(201), 50);
    assert_eq!(long.unwrap_err(), MarketError::Code(ErrorCode::TooLong));

    let not_creator =
        select_winner(EscrowMode::Custodial, &mut b, addr(9), addr(3), addr(2), &mut hunter, &mut client);
    assert_eq!(not_creator.unwrap_err(), MarketError::Bounty(BountyError::Unauthorized));
    let mut other = profile(addr(4), true, false);
    let wrong_profile =
        select_winner(EscrowMode::Custodial, &mut b, addr(9), addr(1), addr(2), &mut other, &mut client);
    assert_eq!(wrong_profile.unwrap_err(), MarketError::AccountMismatch);
    assert_eq!(b.status, BountyStatus::Claimed);
    let t = select_winner(EscrowMode::Custodial, &mut b, addr(9), addr(1), addr(2), &mut hunter, &mut client)
        .unwrap();
    assert_eq!(t, Transfer { from: Holder::Custody(addr(9)), to: Holder::Party(addr(2)), amount: 70 });
    assert_eq!(b.status, BountyStatus::Completed);
    assert_eq!(hunter.bounties_completed, 1);
    assert_eq!(hunter.total_sol_earned, 70);
    assert_eq!(hunter.success_rate, SuccessRate { completed: 1, applied: 1 });
    assert_eq!(client.total_sol_spent, 70);
    assert_eq!(client.bounties_completed_as_client, 1);
    assert_eq!(client.bounties_rewarded, 0);
    let twice =
        select_winner(EscrowMode::Custodial, &mut b, addr(9), addr(1), addr(2), &mut hunter, &mut client);
    assert_eq!(twice.unwrap_err(), MarketError::Bounty(BountyError::BountyNotClaimed));
}

#[test]
fn submit_on_open_bounty_is_invalid_state() {
    let mut client = profile(addr(1), false, true);
    let b = create_bounty(
        addr(1),
        &mut client,
        "t".to_string(),
        "d".to_string(),
        1,
        None,
        None,
        "l".to_string(),
        100,
        0,
    )
    .unwrap();
    let r = submit_work(&b, addr(9), addr(2), "l".to_string(), 1);
    assert_eq!(r.unwrap_err(), MarketError::Code(ErrorCode::InvalidState));
}

#[test]
fn transfers_follow_the_mode() {
    assert_eq!(
        funding_transfer(EscrowMode::Custodial, addr(1), addr(9), 5),
        Some(Transfer { from: Holder::Party(addr(1)), to: Holder::Custody(addr(9)), amount: 5 })
    );
    assert_eq!(funding_transfer(EscrowMode::Direct, addr(1), addr(9), 5), None);
    assert_eq!(
        payout_transfer(EscrowMode::Direct, addr(1), addr(9), addr(2), 5),
        Transfer { from: Holder::Party(addr(1)), to: Holder::Party(addr(2)), amount: 5 }
    );
}

#[test]
fn success_rate_percent_rounds_down() {
    assert_eq!(SuccessRate { completed: 0, applied: 0 }.percent_floor(), 0);
    assert_eq!(SuccessRate { completed: 1, applied: 3 }.percent_floor(), 33);
    assert_eq!(SuccessRate { completed: 2, applied: 2 }.percent_floor(), 100);
    assert_eq!(SuccessRate { completed: u64::MAX, applied: 1 }.percent_floor(), 100 * (u64::MAX as u128));
}

#[test]
fn addresses_compare_by_bytes() {
    let mut b = [7u8; 32];
    assert!(addr(7).same(&Address { bytes: b }));
    b[31] = 8;
    assert!(!addr(7).same(&Address { bytes: b }));
}
