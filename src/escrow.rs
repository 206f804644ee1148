use vstd::prelude::*;
use crate::address::Address;
use crate::model::EscrowMode;

verus! {

/// A holder of funds: a participant's own balance, or the custody record of a bounty.
#[derive(Clone, Copy, Debug, PartialEq, Eq)]
pub enum Holder {
    Party(Address),
    Custody(Address),
}

/// A movement of `amount` units from one holder to another.
#[derive(Clone, Copy, Debug, PartialEq, Eq)]
pub struct Transfer {
    pub from: Holder,
    pub to: Holder,
    pub amount: u64,
}

/// The movement that funds a new bounty: into custody in the custodial mode, none otherwise.
pub open spec fn funding_of(
    mode: EscrowMode,
    creator: Address,
    bounty: Address,
    reward: u64,
) -> Option<Transfer> {
    match mode {
        EscrowMode::Custodial => Some(
            Transfer { from: Holder::Party(creator), to: Holder::Custody(bounty), amount: reward },
        ),
        EscrowMode::Direct => None,
    }
}

/// The movement that pays a bounty's winner: out of custody, or out of the creator's balance.
pub open spec fn payout_of(
    mode: EscrowMode,
    creator: Address,
    bounty: Address,
    winner: Address,
    reward: u64,
) -> Transfer {
    match mode {
        EscrowMode::Custodial => Transfer {
            from: Holder::Custody(bounty),
            to: Holder::Party(winner),
            amount: reward,
        },
        EscrowMode::Direct => Transfer {
            from: Holder::Party(creator),
            to: Holder::Party(winner),
            amount: reward,
        },
    }
}

/// The movement that funds a new bounty.
pub fn funding_transfer(mode: EscrowMode, creator: Address, bounty: Address, reward: u64) -> (r:
    Option<Transfer>)
    ensures
        r == funding_of(mode, creator, bounty, reward),
{
    match mode {
        EscrowMode::Custodial => Some(
            Transfer { from: Holder::Party(creator), to: Holder::Custody(bounty), amount: reward },
        ),
        EscrowMode::Direct => None,
    }
}

/// The movement that pays a bounty's winner.
pub fn payout_transfer(
    mode: EscrowMode,
    creator: Address,
    bounty: Address,
    winner: Address,
    reward: u64,
) -> (r: Transfer)
    ensures
        r == payout_of(mode, creator, bounty, winner, reward),
{
    match mode {
        EscrowMode::Custodial => Transfer {
            from: Holder::Custody(bounty),
            to: Holder::Party(winner),
            amount: reward,
        },
        EscrowMode::Direct => Transfer {
            from: Holder::Party(creator),
            to: Holder::Party(winner),
            amount: reward,
        },
    }
}

} // verus!
