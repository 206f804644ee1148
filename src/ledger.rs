use vstd::prelude::*;
use crate::address::{Address, PairKey};
use crate::bounty::{
    applied, can_charge, can_credit, charge_client, charged, check_select, claim_bounty,
    claim_error, completed, create_bounty, create_error, credit_fits, charge_fits,
    credit_hunter, credited, is_new_bounty, posted, select_error, submit_error, submit_work,
    claimed,
};
use crate::error::{BountyError, ErrorCode, MarketError};
use crate::model::{
    Bounty, BountyCategory, BountyDifficulty, BountyStatus, EscrowMode, Submission, UserProfile,
};
use crate::registry::{
    delete_profile, edit_outcome, edit_profile, init_user_profile, is_edited_profile,
    is_new_profile, profile_text_fits,
};
use crate::table::Table;

verus! {

/// What a ledger holds: every record by its address, and every balance.
pub struct LedgerView {
    pub mode: EscrowMode,
    /// Profiles, by owner.
    pub profiles: Map<Address, UserProfile>,
    /// Bounties, by record address.
    pub bounties: Map<Address, Bounty>,
    /// Submissions, by bounty address and hunter.
    pub submissions: Map<PairKey, Submission>,
    /// Custody balances, by bounty address.
    pub custody: Map<Address, u64>,
    /// Spendable balances, by owner; an owner without an entry holds nothing.
    pub balances: Map<Address, u64>,
}

/// Whether `m` holds a bounty of `creator` titled `title`.
pub open spec fn title_taken(m: Map<Address, Bounty>, creator: Address, title: Seq<char>) -> bool {
    exists|a: Address| #[trigger] m.contains_key(a) && m[a].creator == creator && m[a].title@ == title
}

/// The balance that `m` records for `a`.
pub open spec fn balance_in(m: Map<Address, u64>, a: Address) -> u64 {
    if m.contains_key(a) {
        m[a]
    } else {
        0
    }
}

/// `m` with `amount` taken from `a`.
pub open spec fn debit(m: Map<Address, u64>, a: Address, amount: u64) -> Map<Address, u64> {
    m.insert(a, (balance_in(m, a) - amount) as u64)
}

/// `m` with `amount` added to `a`.
pub open spec fn credit(m: Map<Address, u64>, a: Address, amount: u64) -> Map<Address, u64> {
    m.insert(a, (balance_in(m, a) + amount) as u64)
}

impl LedgerView {
    /// Each profile is stored under its owner, no creator has two bounties with one title,
    /// every bounty records a hunter exactly when it is no longer open, and custody holds exactly the reward of each bounty not yet
    /// completed, and nothing else.
    pub open spec fn inv(&self) -> bool {
        &&& forall|a: Address| #[trigger] self.profiles.contains_key(a) ==> self.profiles[a].authority == a
        &&& forall|a: Address| #[trigger] self.bounties.contains_key(a) ==> self.bounties[a].wf()
        &&& forall|a: Address, b: Address|
            #[trigger] self.bounties.contains_key(a) && #[trigger] self.bounties.contains_key(b) && a
                != b ==> !(self.bounties[a].creator == self.bounties[b].creator
                && self.bounties[a].title@ == self.bounties[b].title@)
        &&& self.mode == EscrowMode::Custodial ==> forall|a: Address| #[trigger]
            self.custody.contains_key(a) <==> (self.bounties.contains_key(a)
                && self.bounties[a].status != BountyStatus::Completed)
        &&& self.mode == EscrowMode::Custodial ==> forall|a: Address| #[trigger]
            self.custody.contains_key(a) ==> self.custody[a] == self.bounties[a].reward
        &&& self.mode == EscrowMode::Direct ==> self.custody == Map::<Address, u64>::empty()
    }

    /// The spendable balance of `a`.
    pub open spec fn balance(&self, a: Address) -> u64 {
        balance_in(self.balances, a)
    }

    /// The custody balance of the bounty at `a`.
    pub open spec fn custody_balance(&self, a: Address) -> u64 {
        balance_in(self.custody, a)
    }
}

/// The marketplace's records and balances, changed only by whole operations: each one either
/// takes full effect or fails and changes nothing.
pub struct Ledger {
    mode: EscrowMode,
    profiles: Table<Address, UserProfile>,
    bounties: Table<Address, Bounty>,
    submissions: Table<PairKey, Submission>,
    custody: Table<Address, u64>,
    balances: Table<Address, u64>,
}

/// The outcome of `signer` creating its profile in `v`.
pub open spec fn create_profile_outcome(
    v: LedgerView,
    signer: Address,
    name: Seq<char>,
    email: Seq<char>,
) -> Result<(), MarketError> {
    if v.profiles.contains_key(signer) {
        Err(MarketError::AccountInUse)
    } else if !profile_text_fits(name, email) {
        Err(MarketError::Code(ErrorCode::TooLong))
    } else {
        Ok(())
    }
}

/// The outcome of `signer` editing the profile of `owner` in `v`.
pub open spec fn edit_profile_outcome(
    v: LedgerView,
    signer: Address,
    owner: Address,
    name: Seq<char>,
    email: Seq<char>,
) -> Result<(), MarketError> {
    if !v.profiles.contains_key(owner) {
        Err(MarketError::AccountNotFound)
    } else {
        edit_outcome(v.profiles[owner], signer, name, email)
    }
}

/// The outcome of `signer` deleting the profile of `owner` in `v`.
pub open spec fn delete_profile_outcome(v: LedgerView, signer: Address, owner: Address) -> Result<
    (),
    MarketError,
> {
    if !v.profiles.contains_key(owner) {
        Err(MarketError::AccountNotFound)
    } else if owner != signer {
        Err(MarketError::Bounty(BountyError::Unauthorized))
    } else {
        Ok(())
    }
}

/// Why `signer` cannot post a bounty at `at` in `v`, if it cannot.
pub open spec fn ledger_create_error(
    v: LedgerView,
    signer: Address,
    at: Address,
    title: Seq<char>,
    description: Seq<char>,
    reward: u64,
    location: Seq<char>,
) -> Option<MarketError> {
    if v.bounties.contains_key(at) || title_taken(v.bounties, signer, title) {
        Some(MarketError::AccountInUse)
    } else if !v.profiles.contains_key(signer) {
        Some(MarketError::AccountNotFound)
    } else if v.mode == EscrowMode::Custodial && v.balance(signer) < reward {
        Some(MarketError::InsufficientFunds)
    } else {
        create_error(v.profiles[signer], signer, title, description, location)
    }
}

/// `v` after `signer` posts bounty `b` at `at`: the creator counts one more bounty posted,
/// and in the custodial mode the reward moves from the creator into custody.
pub open spec fn created_view(v: LedgerView, signer: Address, at: Address, b: Bounty) -> LedgerView {
    LedgerView {
        profiles: v.profiles.insert(signer, posted(v.profiles[signer])),
        bounties: v.bounties.insert(at, b),
        custody: if v.mode == EscrowMode::Custodial {
            v.custody.insert(at, b.reward)
        } else {
            v.custody
        },
        balances: if v.mode == EscrowMode::Custodial {
            debit(v.balances, signer, b.reward)
        } else {
            v.balances
        },
        ..v
    }
}

/// Why `signer` cannot claim the bounty at `at` in `v`, if it cannot.
pub open spec fn ledger_claim_error(v: LedgerView, signer: Address, at: Address) -> Option<MarketError> {
    if !v.bounties.contains_key(at) || !v.profiles.contains_key(signer) {
        Some(MarketError::AccountNotFound)
    } else {
        claim_error(v.bounties[at], v.profiles[signer], signer)
    }
}

/// `v` after `signer` claims the bounty at `at`.
pub open spec fn claimed_view(v: LedgerView, signer: Address, at: Address) -> LedgerView {
    LedgerView {
        profiles: v.profiles.insert(signer, applied(v.profiles[signer])),
        bounties: v.bounties.insert(at, claimed(v.bounties[at], signer)),
        ..v
    }
}

/// Why `signer` cannot submit `link` on the bounty at `at` at time `now`, if it cannot.
pub open spec fn ledger_submit_error(
    v: LedgerView,
    signer: Address,
    at: Address,
    link: Seq<char>,
    now: i64,
) -> Option<MarketError> {
    if !v.bounties.contains_key(at) {
        Some(MarketError::AccountNotFound)
    } else if v.submissions.contains_key(PairKey { first: at, second: signer }) {
        Some(MarketError::AccountInUse)
    } else {
        submit_error(v.bounties[at], signer, link, now)
    }
}

/// Whether paying `reward` to `winner` would overflow the winner's balance.
pub open spec fn payout_overflows(v: LedgerView, signer: Address, winner: Address, reward: u64) -> bool {
    &&& v.mode == EscrowMode::Custodial || winner != signer
    &&& v.balance(winner) + reward > u64::MAX
}

/// Why `signer` cannot complete the bounty at `at` in favour of `winner`, if it cannot.
pub open spec fn ledger_select_error(v: LedgerView, signer: Address, at: Address, winner: Address) -> Option<
    MarketError,
> {
    if !v.bounties.contains_key(at) {
        Some(MarketError::AccountNotFound)
    } else if select_error(v.bounties[at], signer) is Some {
        select_error(v.bounties[at], signer)
    } else if !v.profiles.contains_key(signer) || !v.profiles.contains_key(winner) {
        Some(MarketError::AccountNotFound)
    } else if !credit_fits(v.profiles[winner], v.bounties[at].reward) || !charge_fits(
        v.profiles[signer],
        v.bounties[at].reward,
        v.mode,
    ) {
        Some(MarketError::Bounty(BountyError::MathOverflow))
    } else if v.mode == EscrowMode::Direct && v.balance(signer) < v.bounties[at].reward {
        Some(MarketError::InsufficientFunds)
    } else if payout_overflows(v, signer, winner, v.bounties[at].reward) {
        Some(MarketError::Bounty(BountyError::MathOverflow))
    } else {
        None
    }
}

/// The profiles of `v` after the creator `signer` pays `winner` the reward `reward`.
pub open spec fn paid_profiles(v: LedgerView, signer: Address, winner: Address, reward: u64) -> Map<
    Address,
    UserProfile,
> {
    let after_credit = v.profiles.insert(winner, credited(v.profiles[winner], reward));
    after_credit.insert(signer, charged(after_credit[signer], reward, v.mode))
}

/// `v` after the bounty at `at` is completed in favour of `winner`: the reward moves to the
/// winner, out of custody or out of the creator's balance, and both profiles record it.
pub open spec fn selected_view(v: LedgerView, signer: Address, at: Address, winner: Address) -> LedgerView {
    let reward = v.bounties[at].reward;
    LedgerView {
        profiles: paid_profiles(v, signer, winner, reward),
        bounties: v.bounties.insert(at, completed(v.bounties[at])),
        custody: if v.mode == EscrowMode::Custodial {
            v.custody.remove(at)
        } else {
            v.custody
        },
        balances: if v.mode == EscrowMode::Custodial {
            credit(v.balances, winner, reward)
        } else {
            credit(debit(v.balances, signer, reward), winner, reward)
        },
        ..v
    }
}

impl Ledger {
    /// The records and balances this ledger holds.
    pub closed spec fn view(&self) -> LedgerView {
        LedgerView {
            mode: self.mode,
            profiles: self.profiles@,
            bounties: self.bounties@,
            submissions: self.submissions@,
            custody: self.custody@,
            balances: self.balances@,
        }
    }

    /// Each store keeps one record per key, and the records obey the ledger's invariant.
    pub closed spec fn wf(&self) -> bool {
        &&& self.profiles.wf()
        &&& self.bounties.wf()
        &&& self.submissions.wf()
        &&& self.custody.wf()
        &&& self.balances.wf()
        &&& self@.inv()
    }

    /// An empty ledger that keeps rewards as `mode` says.
    pub fn new(mode: EscrowMode) -> (r: Ledger)
        ensures
            r.wf(),
            r@.mode == mode,
            r@.profiles == Map::<Address, UserProfile>::empty(),
            r@.bounties == Map::<Address, Bounty>::empty(),
            r@.submissions == Map::<PairKey, Submission>::empty(),
            r@.custody == Map::<Address, u64>::empty(),
            r@.balances == Map::<Address, u64>::empty(),
    {
        Ledger {
            mode,
            profiles: Table::new(),
            bounties: Table::new(),
            submissions: Table::new(),
            custody: Table::new(),
            balances: Table::new(),
        }
    }

    /// How rewards are kept.
    pub fn mode(&self) -> (r: EscrowMode)
        ensures
            r == self@.mode,
    {
        self.mode
    }

    fn balance_at(t: &Table<Address, u64>, a: &Address) -> (r: u64)
        requires
            t.wf(),
        ensures
            r == balance_in(t@, *a),
    {
        match t.get(a) {
            Some(v) => *v,
            None => 0,
        }
    }

    /// The spendable balance of `a`.
    pub fn balance(&self, a: Address) -> (r: u64)
        requires
            self.wf(),
        ensures
            r == self@.balance(a),
    {
        Self::balance_at(&self.balances, &a)
    }

    /// The custody balance of the bounty at `bounty`.
    pub fn custody_balance(&self, bounty: Address) -> (r: u64)
        requires
            self.wf(),
        ensures
            r == self@.custody_balance(bounty),
    {
        Self::balance_at(&self.custody, &bounty)
    }

    /// The profile of `owner`, if it has one.
    pub fn profile(&self, owner: Address) -> (r: Option<&UserProfile>)
        requires
            self.wf(),
        ensures
            r is None <==> !self@.profiles.contains_key(owner),
            r is Some ==> *r->0 == self@.profiles[owner],
    {
        self.profiles.get(&owner)
    }

    /// The bounty at `at`, if there is one.
    pub fn bounty(&self, at: Address) -> (r: Option<&Bounty>)
        requires
            self.wf(),
        ensures
            r is None <==> !self@.bounties.contains_key(at),
            r is Some ==> *r->0 == self@.bounties[at],
    {
        self.bounties.get(&at)
    }

    /// The submission of `hunter` on the bounty at `bounty`, if there is one.
    pub fn submission(&self, bounty: Address, hunter: Address) -> (r: Option<&Submission>)
        requires
            self.wf(),
        ensures
            r is None <==> !self@.submissions.contains_key(PairKey { first: bounty, second: hunter }),
            r is Some ==> *r->0 == self@.submissions[PairKey { first: bounty, second: hunter }],
    {
        self.submissions.get(&PairKey { first: bounty, second: hunter })
    }

    /// Whether `creator` already has a bounty titled `title`.
    pub fn has_title(&self, creator: Address, title: &String) -> (r: bool)
        requires
            self.wf(),
        ensures
            r == title_taken(self@.bounties, creator, title@),
    {
        let (keys, all) = self.bounties.entries();
        let mut i: usize = 0;
        while i < all.len()
            invariant
                i <= all@.len(),
                keys@.len() == all@.len(),
                forall|j: int|
                    0 <= j < keys@.len() ==> #[trigger] self@.bounties.contains_key(keys@[j])
                        && self@.bounties[keys@[j]] == all@[j],
                forall|k: Address|
                    #[trigger] self@.bounties.contains_key(k) ==> exists|j: int|
                        0 <= j < keys@.len() && keys@[j] == k,
                forall|j: int|
                    0 <= j < i ==> (#[trigger] all@[j]).creator != creator || all@[j].title@
                        != title@,
            decreases all@.len() - i,
        {
            if all[i].creator.same(&creator) && all[i].title == *title {
                proof {
                    assert(self@.bounties.contains_key(keys@[i as int]));
                }
                return true;
            }
            i = i + 1;
        }
        proof {
            if title_taken(self@.bounties, creator, title@) {
                let a = choose|a: Address| #[trigger] self@.bounties.contains_key(a)
                    && self@.bounties[a].creator == creator && self@.bounties[a].title@ == title@;
                let j = choose|j: int| 0 <= j < keys@.len() && keys@[j] == a;
                assert(self@.bounties.contains_key(keys@[j]));
                assert(all@[j] == self@.bounties[a]);
            }
        }
        false
    }

    /// What `wf` keeps of a ledger's records: its invariant.
    pub proof fn lemma_inv(&self)
        requires
            self.wf(),
        ensures
            self@.inv(),
    {
    }

    /// Adds `amount` to the spendable balance of `owner`.
    pub fn deposit(&mut self, owner: Address, amount: u64) -> (r: Result<(), MarketError>)
        requires
            old(self).wf(),
        ensures
            final(self).wf(),
            r is Ok <==> old(self)@.balance(owner) + amount <= u64::MAX,
            r is Err ==> r == Err::<(), MarketError>(MarketError::Bounty(BountyError::MathOverflow))
                && final(self)@ == old(self)@,
            r is Ok ==> final(self)@ == (LedgerView {
                balances: credit(old(self)@.balances, owner, amount),
                ..old(self)@
            }),
    {
        let b = Self::balance_at(&self.balances, &owner);
        if b > u64::MAX - amount {
            return Err(MarketError::Bounty(BountyError::MathOverflow));
        }
        self.balances.put(owner, b + amount);
        Ok(())
    }

    /// Takes `amount` out of the spendable balance of `owner`, as spending elsewhere would.
    pub fn withdraw(&mut self, owner: Address, amount: u64) -> (r: Result<(), MarketError>)
        requires
            old(self).wf(),
        ensures
            final(self).wf(),
            r is Ok <==> amount <= old(self)@.balance(owner),
            r is Err ==> r == Err::<(), MarketError>(MarketError::InsufficientFunds) && final(self)@
                == old(self)@,
            r is Ok ==> final(self)@ == (LedgerView {
                balances: debit(old(self)@.balances, owner, amount),
                ..old(self)@
            }),
    {
        let b = Self::balance_at(&self.balances, &owner);
        if b < amount {
            return Err(MarketError::InsufficientFunds);
        }
        self.balances.put(owner, b - amount);
        Ok(())
    }

    /// Creates the profile of `signer`; fails if `signer` already has one.
    pub fn create_profile(
        &mut self,
        signer: Address,
        username: String,
        email: String,
        is_hunter: bool,
        is_client: bool,
    ) -> (r: Result<(), MarketError>)
        requires
            old(self).wf(),
        ensures
            final(self).wf(),
            r == create_profile_outcome(old(self)@, signer, username@, email@),
            r is Err ==> final(self)@ == old(self)@,
            r is Ok ==> final(self)@ == (LedgerView {
                profiles: old(self)@.profiles.insert(signer, final(self)@.profiles[signer]),
                ..old(self)@
            }) && is_new_profile(
                final(self)@.profiles[signer],
                signer,
                username@,
                email@,
                is_hunter,
                is_client,
            ),
    {
        if self.profiles.contains(&signer) {
            return Err(MarketError::AccountInUse);
        }
        let p = init_user_profile(signer, username, email, is_hunter, is_client)?;
        self.profiles.insert_new(signer, p);
        Ok(())
    }

    /// Replaces the name and e-mail of the profile of `owner`, on behalf of `signer`.
    pub fn edit_profile(&mut self, signer: Address, owner: Address, name: String, email: String) -> (r:
        Result<(), MarketError>)
        requires
            old(self).wf(),
        ensures
            final(self).wf(),
            r == edit_profile_outcome(old(self)@, signer, owner, name@, email@),
            r is Err ==> final(self)@ == old(self)@,
            r is Ok ==> final(self)@ == (LedgerView {
                profiles: old(self)@.profiles.insert(owner, final(self)@.profiles[owner]),
                ..old(self)@
            }) && is_edited_profile(
                old(self)@.profiles[owner],
                final(self)@.profiles[owner],
                name@,
                email@,
            ),
    {
        let ghost before = self@;
        let mut p = match self.profiles.remove(&owner) {
            Some(p) => p,
            None => {
                proof {
                    assert(self@.profiles =~= before.profiles);
                }
                return Err(MarketError::AccountNotFound);
            },
        };
        let r = edit_profile(&mut p, signer, name, email);
        self.profiles.put(owner, p);
        proof {
            if r is Err {
                assert(self@.profiles =~= before.profiles);
            }
            assert(self@.profiles =~= before.profiles.insert(owner, self@.profiles[owner]));
        }
        r
    }

    /// Deletes the profile of `owner`, on behalf of `signer`: only the owner may.
    pub fn delete_profile(&mut self, signer: Address, owner: Address) -> (r: Result<(), MarketError>)
        requires
            old(self).wf(),
        ensures
            final(self).wf(),
            r == delete_profile_outcome(old(self)@, signer, owner),
            r is Err ==> final(self)@ == old(self)@,
            r is Ok ==> final(self)@ == (LedgerView {
                profiles: old(self)@.profiles.remove(owner),
                ..old(self)@
            }),
    {
        match self.profiles.get(&owner) {
            None => Err(MarketError::AccountNotFound),
            Some(p) => {
                delete_profile(p, signer)?;
                let _ = self.profiles.remove(&owner);
                Ok(())
            },
        }
    }

    /// Posts a bounty of `signer` at `at`, funding custody in the custodial mode.
    pub fn create_bounty(
        &mut self,
        signer: Address,
        at: Address,
        title: String,
        description: String,
        reward: u64,
        category: Option<BountyCategory>,
        difficulty: Option<BountyDifficulty>,
        location: String,
        time_limit: i64,
        now: i64,
    ) -> (r: Result<(), MarketError>)
        requires
            old(self).wf(),
        ensures
            final(self).wf(),
            r is Err <==> ledger_create_error(
                old(self)@,
                signer,
                at,
                title@,
                description@,
                reward,
                location@,
            ) is Some,
            r is Err ==> Some(r->Err_0) == ledger_create_error(
                old(self)@,
                signer,
                at,
                title@,
                description@,
                reward,
                location@,
            ) && final(self)@ == old(self)@,
            r is Ok ==> final(self)@ == created_view(old(self)@, signer, at, final(self)@.bounties[at])
                && is_new_bounty(
                final(self)@.bounties[at],
                signer,
                title@,
                description@,
                reward,
                category,
                difficulty,
                location@,
                time_limit,
                now,
            ),
    {
        let ghost before = self@;
        if self.bounties.contains(&at) || self.has_title(signer, &title) {
            return Err(MarketError::AccountInUse);
        }
        if !self.profiles.contains(&signer) {
            return Err(MarketError::AccountNotFound);
        }
        let funds = Self::balance_at(&self.balances, &signer);
        if self.mode == EscrowMode::Custodial && funds < reward {
            return Err(MarketError::InsufficientFunds);
        }
        let mut p = match self.profiles.remove(&signer) {
            Some(p) => p,
            None => {
                return Err(MarketError::AccountNotFound);
            },
        };
        let created = create_bounty(
            signer,
            &mut p,
            title,
            description,
            reward,
            category,
            difficulty,
            location,
            time_limit,
            now,
        );
        self.profiles.put(signer, p);
        match created {
            Err(e) => {
                proof {
                    assert(self@.profiles =~= before.profiles);
                }
                Err(e)
            },
            Ok(b) => {
                let ghost nb = b;
                self.bounties.insert_new(at, b);
                if self.mode == EscrowMode::Custodial {
                    self.custody.insert_new(at, reward);
                    self.balances.put(signer, funds - reward);
                }
                proof {
                    let v = created_view(before, signer, at, nb);
                    assert(self@.profiles =~= v.profiles);
                    assert(self@.bounties =~= v.bounties);
                    assert(self@.custody =~= v.custody);
                    assert(self@.balances =~= v.balances);
                }
                Ok(())
            },
        }
    }

    /// Claims the open bounty at `at` for `signer`.
    pub fn claim_bounty(&mut self, signer: Address, at: Address) -> (r: Result<(), MarketError>)
        requires
            old(self).wf(),
        ensures
            final(self).wf(),
            r is Err <==> ledger_claim_error(old(self)@, signer, at) is Some,
            r is Err ==> Some(r->Err_0) == ledger_claim_error(old(self)@, signer, at) && final(self)@
                == old(self)@,
            r is Ok ==> final(self)@ == claimed_view(old(self)@, signer, at),
    {
        let ghost before = self@;
        if !self.bounties.contains(&at) || !self.profiles.contains(&signer) {
            return Err(MarketError::AccountNotFound);
        }
        let mut b = match self.bounties.remove(&at) {
            Some(b) => b,
            None => {
                return Err(MarketError::AccountNotFound);
            },
        };
        let mut p = match self.profiles.remove(&signer) {
            Some(p) => p,
            None => {
                self.bounties.put(at, b);
                proof {
                    assert(self@.bounties =~= before.bounties);
                }
                return Err(MarketError::AccountNotFound);
            },
        };
        let r = claim_bounty(&mut b, &mut p, signer);
        self.bounties.put(at, b);
        self.profiles.put(signer, p);
        proof {
            if r is Err {
                assert(self@.bounties =~= before.bounties);
                assert(self@.profiles =~= before.profiles);
            } else {
                let v = claimed_view(before, signer, at);
                assert(self@.bounties =~= v.bounties);
                assert(self@.profiles =~= v.profiles);
            }
        }
        r
    }

    /// Records the work of `signer` on the bounty at `at`, strictly before its deadline.
    pub fn submit_work(&mut self, signer: Address, at: Address, submission_link: String, now: i64) -> (r:
        Result<(), MarketError>)
        requires
            old(self).wf(),
        ensures
            final(self).wf(),
            r is Err <==> ledger_submit_error(old(self)@, signer, at, submission_link@, now) is Some,
            r is Err ==> Some(r->Err_0) == ledger_submit_error(
                old(self)@,
                signer,
                at,
                submission_link@,
                now,
            ) && final(self)@ == old(self)@,
            r is Ok ==> ({
                let key = PairKey { first: at, second: signer };
                let s = final(self)@.submissions[key];
                &&& final(self)@ == LedgerView {
                    submissions: old(self)@.submissions.insert(key, s),
                    ..old(self)@
                }
                &&& s.bounty == at
                &&& s.hunter == signer
                &&& s.submission_link@ == submission_link@
                &&& s.submitted_at == now
                &&& !s.selected
            }),
    {
        let key = PairKey { first: at, second: signer };
        let b = match self.bounties.get(&at) {
            Some(b) => b,
            None => {
                return Err(MarketError::AccountNotFound);
            },
        };
        if self.submissions.contains(&key) {
            return Err(MarketError::AccountInUse);
        }
        let s = submit_work(b, at, signer, submission_link, now)?;
        self.submissions.insert_new(key, s);
        Ok(())
    }

    /// Completes the claimed bounty at `at` in favour of `winner`, on behalf of its creator
    /// `signer`, and pays the reward.
    pub fn select_winner(&mut self, signer: Address, at: Address, winner: Address) -> (r: Result<
        (),
        MarketError,
    >)
        requires
            old(self).wf(),
        ensures
            final(self).wf(),
            r is Err <==> ledger_select_error(old(self)@, signer, at, winner) is Some,
            r is Err ==> Some(r->Err_0) == ledger_select_error(old(self)@, signer, at, winner)
                && final(self)@ == old(self)@,
            r is Ok ==> final(self)@ == selected_view(old(self)@, signer, at, winner),
    {
        let ghost before = self@;
        let b = match self.bounties.get(&at) {
            Some(b) => b,
            None => {
                return Err(MarketError::AccountNotFound);
            },
        };
        check_select(b, signer)?;
        if !self.profiles.contains(&signer) || !self.profiles.contains(&winner) {
            return Err(MarketError::AccountNotFound);
        }
        let reward = b.reward;
        match (self.profiles.get(&winner), self.profiles.get(&signer)) {
            (Some(hp), Some(cp)) => {
                if !can_credit(hp, reward) || !can_charge(cp, reward, self.mode) {
                    return Err(MarketError::Bounty(BountyError::MathOverflow));
                }
            },
            _ => {
                return Err(MarketError::AccountNotFound);
            },
        }
        let funds = Self::balance_at(&self.balances, &signer);
        if self.mode == EscrowMode::Direct && funds < reward {
            return Err(MarketError::InsufficientFunds);
        }
        let gain = Self::balance_at(&self.balances, &winner);
        if (self.mode == EscrowMode::Custodial || !winner.same(&signer)) && gain > u64::MAX - reward {
            return Err(MarketError::Bounty(BountyError::MathOverflow));
        }
        let ghost v = selected_view(before, signer, at, winner);
        if let Some(mut hp) = self.profiles.remove(&winner) {
            credit_hunter(&mut hp, reward);
            self.profiles.put(winner, hp);
        }
        if let Some(mut cp) = self.profiles.remove(&signer) {
            charge_client(&mut cp, reward, self.mode);
            self.profiles.put(signer, cp);
        }
        assert(self@.profiles =~= v.profiles);
        if let Some(mut bb) = self.bounties.remove(&at) {
            bb.status = BountyStatus::Completed;
            self.bounties.put(at, bb);
        }
        assert(self@.bounties =~= v.bounties);
        if self.mode == EscrowMode::Custodial {
            let held = match self.custody.remove(&at) {
                Some(held) => held,
                None => 0,
            };
            assert(held == reward);
            self.balances.put(winner, gain + held);
        } else {
            self.balances.put(signer, funds - reward);
            let gain = Self::balance_at(&self.balances, &winner);
            self.balances.put(winner, gain + reward);
        }
        assert(self@.custody =~= v.custody);
        assert(self@.balances =~= v.balances);
        Ok(())
    }
}

} // verus!
