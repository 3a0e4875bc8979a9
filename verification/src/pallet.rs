//! The Casper module: its storage and its calls.
use crate::model::{value_or, CasperState};
use crate::runtime::{Runtime, Trait};
use crate::types::{
    AccountId, Balance, BlockHash, BlockNumber, CheckPoints, Config, DispatchError, Dynasty, Epoch,
    Error, Event, Origin, RuntimeCall, Validator, ValidatorId, ensure_signed, saturating_mul,
};
use std::collections::BTreeMap;
use vstd::prelude::*;

verus! {

/// `deposit * factor / base` equals `(deposit / base) * factor` plus
/// `(deposit % base) * factor / base`, whose parts are at most the whole.
proof fn lemma_scaled_share(d: int, f: int, b: int)
    requires
        d >= 0,
        f >= 0,
        b > 0,
    ensures
        (d / b) * f + ((d % b) * f) / b == (d * f) / b,
        (d / b) * f <= (d * f) / b,
        0 <= d % b < b,
{
    vstd::arithmetic::div_mod::lemma_fundamental_div_mod(d, b);
    vstd::arithmetic::div_mod::lemma_mod_bound(d, b);
    let q = d / b;
    let r = d % b;
    assert(d * f == r * f + (q * f) * b) by (nonlinear_arith)
        requires
            d == b * q + r,
    ;
    vstd::arithmetic::div_mod::lemma_hoist_over_denominator(r * f, q * f, b as nat);
    assert(r * f >= 0) by (nonlinear_arith)
        requires
            r >= 0,
            f >= 0,
    ;
    vstd::arithmetic::div_mod::lemma_div_pos_is_pos(r * f, b);
}

/// The storage of the Casper module.
pub struct Module {
    config: Config,
    next_validator_id: ValidatorId,
    current_epoch: Epoch,
    current_dynasty: Dynasty,
    expected_source_epoch: Epoch,
    main_hash_justified: bool,
    last_finalized_epoch: Epoch,
    last_justified_epoch: Epoch,
    total_cur_dyn_deposits: Balance,
    total_pre_dyn_deposits: Balance,
    recommended_target_hash: BlockHash,
    last_finalized_hash: BlockHash,
    validator_by_id: BTreeMap<ValidatorId, Validator>,
    validator_id_by_account: BTreeMap<AccountId, ValidatorId>,
    check_point_hash: BTreeMap<Dynasty, BlockHash>,
    new_deposit_in_dynasty: BTreeMap<Dynasty, Balance>,
    withdrawed_deposit_in_dynasty: BTreeMap<Dynasty, Balance>,
    dynasty_start_epoch: BTreeMap<Dynasty, Epoch>,
    dynasty_in_epoch: BTreeMap<Epoch, Dynasty>,
    check_points_by_epoch: BTreeMap<Epoch, CheckPoints>,
    current_dynasty_votes: BTreeMap<(Epoch, Epoch), Balance>,
    pre_dynasty_votes: BTreeMap<(Epoch, Epoch), Balance>,
}

impl View for Module {
    type V = CasperState;

    closed spec fn view(&self) -> CasperState {
        CasperState {
            config: self.config,
            next_validator_id: self.next_validator_id,
            current_epoch: self.current_epoch,
            current_dynasty: self.current_dynasty,
            expected_source_epoch: self.expected_source_epoch,
            main_hash_justified: self.main_hash_justified,
            last_finalized_epoch: self.last_finalized_epoch,
            last_justified_epoch: self.last_justified_epoch,
            total_cur_dyn_deposits: self.total_cur_dyn_deposits,
            total_pre_dyn_deposits: self.total_pre_dyn_deposits,
            recommended_target_hash: self.recommended_target_hash,
            last_finalized_hash: self.last_finalized_hash,
            validator_by_id: self.validator_by_id@,
            validator_id_by_account: self.validator_id_by_account@,
            check_point_hash: self.check_point_hash@,
            new_deposit_in_dynasty: self.new_deposit_in_dynasty@,
            withdrawed_deposit_in_dynasty: self.withdrawed_deposit_in_dynasty@,
            dynasty_start_epoch: self.dynasty_start_epoch@,
            dynasty_in_epoch: self.dynasty_in_epoch@,
            check_points_by_epoch: self.check_points_by_epoch@.map_values(|c: CheckPoints| c@),
            current_dynasty_votes: self.current_dynasty_votes@,
            pre_dynasty_votes: self.pre_dynasty_votes@,
        }
    }
}

impl Module {
    /// The module with every storage entry at its default.
    pub fn new(config: Config) -> (m: Module)
        ensures
            m@ == CasperState::genesis(config),
    {
        let m = Module {
            config,
            next_validator_id: 0,
            current_epoch: 0,
            current_dynasty: 0,
            expected_source_epoch: 0,
            main_hash_justified: false,
            last_finalized_epoch: 0,
            last_justified_epoch: 0,
            total_cur_dyn_deposits: 0,
            total_pre_dyn_deposits: 0,
            recommended_target_hash: BlockHash::zero(),
            last_finalized_hash: BlockHash::zero(),
            validator_by_id: BTreeMap::new(),
            validator_id_by_account: BTreeMap::new(),
            check_point_hash: BTreeMap::new(),
            new_deposit_in_dynasty: BTreeMap::new(),
            withdrawed_deposit_in_dynasty: BTreeMap::new(),
            dynasty_start_epoch: BTreeMap::new(),
            dynasty_in_epoch: BTreeMap::new(),
            check_points_by_epoch: BTreeMap::new(),
            current_dynasty_votes: BTreeMap::new(),
            pre_dynasty_votes: BTreeMap::new(),
        };
        assert(m@.check_points_by_epoch =~= Map::empty());
        m
    }

    // -----------------------------------------------------------------
    // Storage reads
    // -----------------------------------------------------------------

    pub fn config(&self) -> (c: Config)
        ensures
            c == self@.config,
    {
        self.config
    }

    pub fn next_validator_id(&self) -> (r: ValidatorId)
        ensures
            r == self@.next_validator_id,
    {
        self.next_validator_id
    }

    pub fn current_epoch(&self) -> (r: Epoch)
        ensures
            r == self@.current_epoch,
    {
        self.current_epoch
    }

    pub fn current_dynasty(&self) -> (r: Dynasty)
        ensures
            r == self@.current_dynasty,
    {
        self.current_dynasty
    }

    pub fn expected_source_epoch(&self) -> (r: Epoch)
        ensures
            r == self@.expected_source_epoch,
    {
        self.expected_source_epoch
    }

    pub fn main_hash_justified(&self) -> (r: bool)
        ensures
            r == self@.main_hash_justified,
    {
        self.main_hash_justified
    }

    pub fn last_finalized_epoch(&self) -> (r: Epoch)
        ensures
            r == self@.last_finalized_epoch,
    {
        self.last_finalized_epoch
    }

    pub fn last_justified_epoch(&self) -> (r: Epoch)
        ensures
            r == self@.last_justified_epoch,
    {
        self.last_justified_epoch
    }

    pub fn total_cur_dyn_deposits(&self) -> (r: Balance)
        ensures
            r == self@.total_cur_dyn_deposits,
    {
        self.total_cur_dyn_deposits
    }

    pub fn total_pre_dyn_deposits(&self) -> (r: Balance)
        ensures
            r == self@.total_pre_dyn_deposits,
    {
        self.total_pre_dyn_deposits
    }

    pub fn recommended_target_hash(&self) -> (r: BlockHash)
        ensures
            r == self@.recommended_target_hash,
    {
        self.recommended_target_hash
    }

    pub fn last_finalized_hash(&self) -> (r: BlockHash)
        ensures
            r == self@.last_finalized_hash,
    {
        self.last_finalized_hash
    }

    pub fn validator_by_id(&self, id: ValidatorId) -> (r: Option<Validator>)
        ensures
            r == self@.validator(id),
    {
        match self.validator_by_id.get(&id) {
            Some(v) => Some(*v),
            None => None,
        }
    }

    pub fn validator_id_by_account(&self, account: AccountId) -> (r: ValidatorId)
        ensures
            r == self@.id_of_account(account),
    {
        match self.validator_id_by_account.get(&account) {
            Some(v) => *v,
            None => 0,
        }
    }

    pub fn check_point_hash(&self, dynasty: Dynasty) -> (r: BlockHash)
        ensures
            r == value_or(self@.check_point_hash, dynasty, BlockHash::zero_spec()),
    {
        match self.check_point_hash.get(&dynasty) {
            Some(v) => *v,
            None => BlockHash::zero(),
        }
    }

    pub fn new_deposit_in_dynasty(&self, dynasty: Dynasty) -> (r: Balance)
        ensures
            r == self@.new_deposit(dynasty),
    {
        match self.new_deposit_in_dynasty.get(&dynasty) {
            Some(v) => *v,
            None => 0,
        }
    }

    pub fn withdrawed_deposit_in_dynasty(&self, dynasty: Dynasty) -> (r: Balance)
        ensures
            r == self@.withdrawed_deposit(dynasty),
    {
        match self.withdrawed_deposit_in_dynasty.get(&dynasty) {
            Some(v) => *v,
            None => 0,
        }
    }

    pub fn dynasty_start_epoch(&self, dynasty: Dynasty) -> (r: Epoch)
        ensures
            r == self@.start_epoch_of(dynasty),
    {
        match self.dynasty_start_epoch.get(&dynasty) {
            Some(v) => *v,
            None => 0,
        }
    }

    pub fn dynasty_in_epoch(&self, epoch: Epoch) -> (r: Dynasty)
        ensures
            r == value_or(self@.dynasty_in_epoch, epoch, 0),
    {
        match self.dynasty_in_epoch.get(&epoch) {
            Some(v) => *v,
            None => 0,
        }
    }

    pub fn check_points_by_epoch(&self, epoch: Epoch) -> (r: CheckPoints)
        ensures
            r@ == self@.checkpoint(epoch),
    {
        match self.check_points_by_epoch.get(&epoch) {
            Some(c) => c.duplicate(),
            None => CheckPoints::default(),
        }
    }

    /// Votes counted for the link from `source_epoch` to `target_epoch`.
    pub fn current_dynasty_votes(&self, target_epoch: Epoch, source_epoch: Epoch) -> (r: Balance)
        ensures
            r == value_or(self@.current_dynasty_votes, (target_epoch, source_epoch), 0),
    {
        match self.current_dynasty_votes.get(&(target_epoch, source_epoch)) {
            Some(v) => *v,
            None => 0,
        }
    }

    /// Votes counted for the link from `source_epoch` to `target_epoch`.
    pub fn pre_dynasty_votes(&self, target_epoch: Epoch, source_epoch: Epoch) -> (r: Balance)
        ensures
            r == value_or(self@.pre_dynasty_votes, (target_epoch, source_epoch), 0),
    {
        match self.pre_dynasty_votes.get(&(target_epoch, source_epoch)) {
            Some(v) => *v,
            None => 0,
        }
    }

    // -----------------------------------------------------------------
    // Storage writes
    // -----------------------------------------------------------------

    /// Stores `cp` as the checkpoint of `epoch`.
    fn put_checkpoint(&mut self, epoch: Epoch, cp: CheckPoints)
        ensures
            final(self)@ == old(self)@.with_checkpoint(epoch, cp@),
    {
        let ghost v = cp@;
        self.check_points_by_epoch.insert(epoch, cp);
        assert(self@.check_points_by_epoch =~= old(self)@.check_points_by_epoch.insert(epoch, v));
        assert(self@ =~= old(self)@.with_checkpoint(epoch, v));
    }

    // -----------------------------------------------------------------
    // Logic
    // -----------------------------------------------------------------

    /// Computes the reward of validator `id` and adds it to the validator's
    /// reward; nothing happens for an unknown validator.
    pub fn proc_reward(&mut self, id: ValidatorId)
        requires
            old(self)@.reward_defined(id),
        ensures
            final(self)@ == old(self)@.rewarded(id),
    {
        match self.validator_by_id.get(&id) {
            Some(v) => {
                let v = *v;
                let base = self.config.reward_rate_base as u128;
                let factor = self.config.reward_factor as u128;
                // deposit * factor / base, computed as
                // (deposit / base) * factor + (deposit % base) * factor / base
                // so that no intermediate product exceeds the result.
                let whole = v.deposit / base;
                let part = v.deposit % base;
                proof {
                    lemma_scaled_share(v.deposit as int, factor as int, base as int);
                }
                assert(part * factor <= u64::MAX) by (nonlinear_arith)
                    requires
                        part < base,
                        base <= u32::MAX,
                        factor <= u32::MAX,
                ;
                let new_reward = whole * factor + part * factor / base;
                self.validator_by_id.insert(
                    id,
                    Validator {
                        deposit: v.deposit,
                        reward: v.reward + new_reward,
                        start_dynasty: v.start_dynasty,
                        end_dynasty: v.end_dynasty,
                        address: v.address,
                        withdraw_address: v.withdraw_address,
                    },
                );
                assert(self@ =~= old(self)@.rewarded(id));
            },
            None => {},
        }
    }

    /// Whether `dynasty` lies between the validator's start dynasty
    /// (included) and end dynasty (excluded).
    pub fn in_dynasty(&self, id: ValidatorId, dynasty: Dynasty) -> (r: bool)
        ensures
            r == self@.in_dynasty(id, dynasty),
    {
        match self.validator_by_id.get(&id) {
            Some(v) => v.start_dynasty <= dynasty && dynasty < v.end_dynasty,
            None => false,
        }
    }

    /// Both the current and the previous dynasty hold some deposit.
    pub fn deposit_exists(&self) -> (r: bool)
        ensures
            r == self@.deposit_exists(),
    {
        self.total_cur_dyn_deposits > 0 && self.total_pre_dyn_deposits > 0
    }

    /// Checks that `sender` may vote as validator `id` from `source_epoch`
    /// to `target_epoch` on `target_hash`.
    fn ensure_votable(
        &self,
        sender: AccountId,
        id: ValidatorId,
        source_epoch: Epoch,
        target_epoch: Epoch,
        target_hash: BlockHash,
    ) -> (r: Result<(), Error>)
        ensures
            r == self@.vote_check(sender, id, source_epoch, target_epoch, target_hash),
    {
        // Only a vote for the current epoch is allowed.
        if target_epoch != self.current_epoch {
            return Err(Error::WrongTargetEpoch);
        }
        // The sender must be the account that deposited.
        match self.validator_by_id.get(&id) {
            Some(v) => {
                if v.address != sender {
                    return Err(Error::VoteSenderDifferWithRegistered);
                }
            },
            None => {
                return Err(Error::ValidatorNotRegistered);
            },
        }
        // A validator votes once per target epoch.
        let voted = match self.check_points_by_epoch.get(&target_epoch) {
            Some(c) => c.has_voted(id),
            None => false,
        };
        if voted {
            return Err(Error::SenderVotedBefore);
        }
        // The vote must be on the recommended target hash.
        if target_hash != self.recommended_target_hash {
            return Err(Error::VoteOnWrongBlockHash);
        }
        // The validator must be in the current or the previous dynasty, and
        // the source epoch must be justified.
        if self.in_dynasty(id, self.current_dynasty) || (self.current_dynasty > 0
            && self.in_dynasty(id, self.current_dynasty - 1)) {
            let justified = match self.check_points_by_epoch.get(&source_epoch) {
                Some(c) => c.is_justified,
                None => false,
            };
            if justified {
                Ok(())
            } else {
                Err(Error::VotedSourceEpochNotJustified)
            }
        } else {
            Err(Error::VoteNotInCorrectDynasty)
        }
    }

    /// Validator `id` votes for the link from `source_epoch` to
    /// `target_epoch`, whose hash is `target_hash`. The validator's deposit
    /// is added to the votes counted for this link in the current dynasty,
    /// and in the previous dynasty where the validator belonged to it. A vote on the expected source epoch earns the reward. Once the
    /// counted votes reach two thirds of the deposits of both dynasties, the
    /// target is justified, and the source finalized where the two epochs
    /// are consecutive.
    pub fn vote(
        &mut self,
        origin: Origin,
        id: ValidatorId,
        source_epoch: Epoch,
        target_epoch: Epoch,
        target_hash: BlockHash,
    ) -> (r: Result<Event, DispatchError>)
        requires
            old(self)@.vote_defined(origin, id, source_epoch, target_epoch, target_hash),
        ensures
            (final(self)@, r) == old(self)@.vote(origin, id, source_epoch, target_epoch, target_hash),
    {
        let who = match ensure_signed(origin) {
            Ok(who) => who,
            Err(e) => {
                return Err(e);
            },
        };
        match self.ensure_votable(who, id, source_epoch, target_epoch, target_hash) {
            Ok(()) => {},
            Err(e) => {
                return Err(DispatchError::Module(e));
            },
        }
        let ghost s0 = self@;
        let dynasty = self.current_dynasty;
        let deposit = match self.validator_by_id.get(&id) {
            Some(v) => v.deposit,
            None => 0,
        };
        let mut new_current_dynasty_votes = self.current_dynasty_votes(target_epoch, source_epoch);
        let mut new_previous_dynasty_votes = self.pre_dynasty_votes(target_epoch, source_epoch);
        if self.in_dynasty(id, dynasty) {
            new_current_dynasty_votes = new_current_dynasty_votes + deposit;
        }
        if dynasty > 0 && self.in_dynasty(id, dynasty - 1) {
            new_previous_dynasty_votes = new_previous_dynasty_votes + deposit;
        }
        assert(new_current_dynasty_votes == s0.current_votes(id, source_epoch, target_epoch));
        assert(new_previous_dynasty_votes == s0.previous_votes(id, source_epoch, target_epoch));
        // Count the vote for its link in both dynasties; a validator votes once
        // per target epoch, so its deposit enters a link's count once.
        self.current_dynasty_votes.insert((target_epoch, source_epoch), new_current_dynasty_votes);
        self.pre_dynasty_votes.insert((target_epoch, source_epoch), new_previous_dynasty_votes);
        assert(self@ =~= s0.votes_counted(id, source_epoch, target_epoch));
        // Reward a vote on the expected source epoch.
        if self.expected_source_epoch == source_epoch {
            self.proc_reward(id);
        }
        let ghost s1 = self@;
        // Justify the target where two thirds of both dynasties agree.
        if saturating_mul(new_current_dynasty_votes, 3) >= saturating_mul(
            self.total_cur_dyn_deposits,
            2,
        ) && saturating_mul(new_previous_dynasty_votes, 3) >= saturating_mul(
            self.total_pre_dyn_deposits,
            2,
        ) {
            let mut target = self.check_points_by_epoch(target_epoch);
            if !target.is_justified {
                target.is_justified = true;
                self.put_checkpoint(target_epoch, target);
                self.last_justified_epoch = target_epoch;
                self.main_hash_justified = true;
                // Finalize the source where the two epochs are consecutive.
                if target_epoch == source_epoch + 1 {
                    self.last_finalized_hash = target_hash;
                    self.last_finalized_epoch = source_epoch;
                    let mut source = self.check_points_by_epoch(source_epoch);
                    source.is_finalized = true;
                    self.put_checkpoint(source_epoch, source);
                }
                assert(self@ =~= s1.justified(source_epoch, target_epoch, target_hash));
            }
        }
        // Record the validator among the target's voters.
        let mut target = self.check_points_by_epoch(target_epoch);
        target.vote_account_set.insert(id);
        self.put_checkpoint(target_epoch, target);
        Ok(Event::Vote(who, id, source_epoch, target_epoch, target_hash))
    }

    /// Validator `id` logs out at `epoch`, signed by its withdraw account:
    /// its end dynasty becomes the current dynasty plus the logout delay,
    /// after which it can withdraw.
    pub fn logout(&mut self, origin: Origin, id: ValidatorId, epoch: Epoch) -> (r: Result<
        Event,
        DispatchError,
    >)
        requires
            old(self)@.logout_defined(origin, id, epoch),
        ensures
            (final(self)@, r) == old(self)@.logout(origin, id, epoch),
    {
        let who = match ensure_signed(origin) {
            Ok(who) => who,
            Err(e) => {
                return Err(e);
            },
        };
        // The epoch must have been reached.
        if self.current_epoch < epoch {
            return Err(DispatchError::Module(Error::EpochNotReachedForLogout));
        }
        match self.validator_by_id.get(&id) {
            Some(v) => {
                let mut validator = *v;
                // Only the withdraw account may log the validator out.
                if validator.withdraw_address != who {
                    return Err(DispatchError::Module(Error::OnlyWithdrawAccountCanLogout));
                }
                if validator.end_dynasty < self.current_dynasty + self.config.logout_delay {
                    return Err(DispatchError::Module(Error::DynastyNotReachedForLogout));
                } else {
                    // Move the end dynasty so that the deposit can be withdrawn later.
                    validator.end_dynasty = self.current_dynasty + self.config.logout_delay;
                    self.validator_by_id.insert(id, validator);
                }
            },
            None => {
                return Err(DispatchError::Module(Error::ValidatorNotRegistered));
            },
        }
        let r = Ok(Event::Logout(id, epoch));
        assert(self@ =~= old(self)@.logout(origin, id, epoch).0);
        r
    }

    /// Validator `id` withdraws: its deposit is unreserved and its reward
    /// paid into its withdraw account, and it is removed from storage. Any
    /// signed account may call it, since the money goes to the withdraw
    /// account.
    /// Where the currency refuses the reward, its error comes back and the
    /// storage stays as it was (the deposit has been unreserved by then).
    pub fn withdraw<T: Trait>(
        &mut self,
        runtime: &mut Runtime<T>,
        origin: Origin,
        id: ValidatorId,
    ) -> (r: Result<Event, DispatchError>)
        requires
            old(self)@.withdraw_defined(origin, id),
        ensures
            exists|rest: Balance, paid: Result<(), DispatchError>|
                {
                    &&& final(runtime).calls() == old(runtime).calls() + old(self)@.withdraw_requests(
                        origin,
                        id,
                        rest,
                        paid,
                    )
                    &&& (final(self)@, r) == old(self)@.withdraw(origin, id, paid)
                },
    {
        let ghost s0 = self@;
        let ghost unused: Result<(), DispatchError> = Ok(());
        proof {
            assert(runtime.calls() =~= runtime.calls() + Seq::<RuntimeCall>::empty());
        }
        if let Err(e) = ensure_signed(origin) {
            assert((self@, Err::<Event, DispatchError>(e)) == s0.withdraw(origin, id, unused));
            assert(s0.withdraw_requests(origin, id, 0, unused) == Seq::<RuntimeCall>::empty());
            return Err(e);
        }
        let v = match self.validator_by_id.get(&id) {
            Some(v) => *v,
            None => {
                let r = Err(DispatchError::Module(Error::ValidatorNotRegistered));
                assert((self@, r) == s0.withdraw(origin, id, unused));
                assert(s0.withdraw_requests(origin, id, 0, unused) == Seq::<RuntimeCall>::empty());
                return r;
            },
        };
        // No withdrawal until the end dynasty is over.
        if self.current_dynasty <= v.end_dynasty {
            let r = Err(DispatchError::Module(Error::DynastyNotReachedForWithdraw));
            assert((self@, r) == s0.withdraw(origin, id, unused));
            assert(s0.withdraw_requests(origin, id, 0, unused) == Seq::<RuntimeCall>::empty());
            return r;
        }
        // No withdrawal until the delay after the next dynasty's start has passed.
        if self.current_epoch < self.dynasty_start_epoch(v.end_dynasty + 1)
            + self.config.withdraw_delay {
            let r = Err(DispatchError::Module(Error::EpochNotReachedForWithdraw));
            assert((self@, r) == s0.withdraw(origin, id, unused));
            assert(s0.withdraw_requests(origin, id, 0, unused) == Seq::<RuntimeCall>::empty());
            return r;
        }
        // Unreserve the deposit to the withdraw account, then pay the reward.
        let ghost c0 = runtime.calls();
        let rest = runtime.unreserve(v.withdraw_address, v.deposit);
        let paid = runtime.deposit_into_existing(v.withdraw_address, v.reward);
        assert(runtime.calls() =~= c0 + s0.withdraw_requests(origin, id, rest, paid));
        if let Err(e) = paid {
            assert((self@, Err::<Event, DispatchError>(e)) == s0.withdraw(origin, id, paid));
            return Err(e);
        }
        self.validator_id_by_account.remove(&v.withdraw_address);
        self.validator_by_id.remove(&id);
        let r = Ok(Event::Withdraw(id));
        assert(self@ =~= s0.withdraw(origin, id, paid).0);
        assert((self@, r) == s0.withdraw(origin, id, paid));
        r
    }

    /// `origin` reserves `amount` to become a validator until
    /// `end_dynasty`, with `withdraw_address` to get it back. The new
    /// validator gets the next id and starts two dynasties from now.
    /// Where the currency refuses to reserve, its error comes back and the
    /// storage stays as it was.
    pub fn deposit<T: Trait>(
        &mut self,
        runtime: &mut Runtime<T>,
        origin: Origin,
        amount: Balance,
        end_dynasty: Dynasty,
        withdraw_address: AccountId,
    ) -> (r: Result<Event, DispatchError>)
        requires
            old(self)@.deposit_defined(origin, amount, withdraw_address),
        ensures
            exists|reserved: Result<(), DispatchError>|
                {
                    &&& final(runtime).calls() == old(runtime).calls() + old(self)@.deposit_requests(
                        origin,
                        amount,
                        withdraw_address,
                        reserved,
                    )
                    &&& (final(self)@, r) == old(self)@.deposit(
                        origin,
                        amount,
                        end_dynasty,
                        withdraw_address,
                        reserved,
                    )
                },
    {
        let ghost s0 = self@;
        let ghost unused: Result<(), DispatchError> = Ok(());
        proof {
            assert(runtime.calls() =~= runtime.calls() + Seq::<RuntimeCall>::empty());
        }
        let who = match ensure_signed(origin) {
            Ok(who) => who,
            Err(e) => {
                assert((self@, Err::<Event, DispatchError>(e)) == s0.deposit(
                    origin,
                    amount,
                    end_dynasty,
                    withdraw_address,
                    unused,
                ));
                return Err(e);
            },
        };
        // The withdraw address must not belong to a validator yet.
        if self.validator_id_by_account(withdraw_address) != 0 {
            let r = Err(DispatchError::Module(Error::ValidatorIdNotValid));
            assert((self@, r) == s0.deposit(origin, amount, end_dynasty, withdraw_address, unused));
            return r;
        }
        if amount < self.config.min_deposit {
            let r = Err(DispatchError::Module(Error::DepositLessThanMinimum));
            assert((self@, r) == s0.deposit(origin, amount, end_dynasty, withdraw_address, unused));
            return r;
        }
        let ghost c0 = runtime.calls();
        let reserved = runtime.reserve(who, amount);
        assert(runtime.calls() =~= c0 + s0.deposit_requests(origin, amount, withdraw_address, reserved));
        if let Err(e) = reserved {
            assert((self@, Err::<Event, DispatchError>(e)) == s0.deposit(
                origin,
                amount,
                end_dynasty,
                withdraw_address,
                reserved,
            ));
            return Err(e);
        }
        // Ids start from 1: 0 stands for an unregistered account.
        self.next_validator_id = self.next_validator_id + 1;
        let start_dynasty = self.current_dynasty + 1 + 1;
        let validator = Validator {
            deposit: amount,
            reward: 0,
            start_dynasty,
            end_dynasty,
            address: who,
            withdraw_address,
        };
        let pending = self.new_deposit_in_dynasty(start_dynasty);
        self.new_deposit_in_dynasty.insert(start_dynasty, pending + amount);
        self.validator_by_id.insert(self.next_validator_id, validator);
        self.validator_id_by_account.insert(withdraw_address, self.next_validator_id);
        let r = Ok(Event::Deposit(who, withdraw_address, end_dynasty));
        assert(self@ =~= s0.registered(who, amount, end_dynasty, withdraw_address));
        assert((self@, r) == s0.deposit(origin, amount, end_dynasty, withdraw_address, reserved));
        r
    }

    /// Finalizes the previous epoch at once, with `last_hash` the hash of
    /// its first block; nothing happens at epoch 0.
    pub fn instant_finalize(&mut self, last_hash: BlockHash)
        ensures
            final(self)@ == old(self)@.instantly_finalized(last_hash),
    {
        if self.current_epoch < 1 {
            return;
        }
        let last_epoch = self.current_epoch - 1;
        self.main_hash_justified = true;
        self.last_finalized_hash = last_hash;
        self.last_finalized_epoch = last_epoch;
        self.last_justified_epoch = last_epoch;
        let mut last = self.check_points_by_epoch(last_epoch);
        last.is_justified = true;
        last.is_finalized = true;
        self.put_checkpoint(last_epoch, last);
        assert(self@ =~= old(self)@.instantly_finalized(last_hash));
    }

    /// Advances the dynasty where the checkpoint two epochs back is
    /// finalized, maps the current epoch to its dynasty, and moves the
    /// expected source epoch to the previous epoch where the current
    /// epoch's checkpoint was justified.
    fn increment_dynasty(&mut self)
        requires
            old(self)@.increment_dynasty_defined(),
        ensures
            final(self)@ == old(self)@.dynasty_incremented(),
    {
        let ghost s0 = self@;
        if self.current_epoch > 1 {
            let is_finalized = match self.check_points_by_epoch.get(&(self.current_epoch - 2)) {
                Some(c) => c.is_finalized,
                None => false,
            };
            if is_finalized {
                self.current_dynasty = self.current_dynasty + 1;
                // Rotate the deposits of the previous and the current dynasty.
                self.total_pre_dyn_deposits = self.total_cur_dyn_deposits;
                let added = self.new_deposit_in_dynasty(self.current_dynasty);
                let removed = self.withdrawed_deposit_in_dynasty(self.current_dynasty);
                self.total_cur_dyn_deposits = self.total_cur_dyn_deposits + added - removed;
                self.dynasty_start_epoch.insert(self.current_dynasty, self.current_epoch);
            }
        }
        self.dynasty_in_epoch.insert(self.current_epoch, self.current_dynasty);
        if self.main_hash_justified {
            self.expected_source_epoch = self.current_epoch - 1;
        }
        self.main_hash_justified = false;
        assert(self@ =~= s0.dynasty_incremented());
    }

    /// Starts `epoch` where it follows the current epoch or is epoch 0, with
    /// `epoch_hash` the hash of the epoch's first block and `last_hash` that
    /// of the previous epoch's first block: the epoch gets a fresh
    /// checkpoint, is finalized at once where a dynasty holds no deposit,
    /// the dynasty's checkpoint hash is recorded, the dynasty may advance,
    /// and the previous epoch's hash becomes the recommended target.
    pub fn start_epoch(&mut self, epoch: Epoch, epoch_hash: BlockHash, last_hash: BlockHash)
        requires
            old(self)@.initialize_epoch_defined(epoch),
        ensures
            final(self)@ == old(self)@.epoch_initialized(epoch, epoch_hash, last_hash),
    {
        let ghost s0 = self@;
        if epoch == self.current_epoch + 1 || epoch == 0 {
            let fresh = CheckPoints::new(self.total_cur_dyn_deposits, self.total_pre_dyn_deposits);
            self.put_checkpoint(epoch, fresh);
            self.current_epoch = epoch;
            // Without deposits the new epoch is finalized at once.
            if !self.deposit_exists() {
                self.instant_finalize(last_hash);
            }
            self.check_point_hash.insert(self.current_dynasty, epoch_hash);
            assert(self@ =~= s0.epoch_opened(epoch, epoch_hash, last_hash));
            assert(s0.epoch_opened(epoch, epoch_hash, last_hash).increment_dynasty_defined()
                == s0.epoch_opened(
                epoch,
                BlockHash::zero_spec(),
                BlockHash::zero_spec(),
            ).increment_dynasty_defined());
            self.increment_dynasty();
            // The previous epoch's hash is the target to vote on.
            if epoch != 0 {
                self.recommended_target_hash = last_hash;
            }
            assert(self@ =~= s0.epoch_initialized(epoch, epoch_hash, last_hash));
        }
    }

    /// Starts `epoch` as `start_epoch` does, with the hashes of the first
    /// blocks of `epoch` and of the epoch before read from the runtime.
    pub fn initialize_epoch<T: Trait>(&mut self, runtime: &mut Runtime<T>, epoch: Epoch)
        requires
            old(self)@.initialize_epoch_defined(epoch),
            old(self)@.starts_epoch(epoch) ==> epoch * old(self)@.config.epoch_length <= u32::MAX,
        ensures
            exists|epoch_hash: BlockHash, last_hash: BlockHash|
                #![trigger old(self)@.epoch_initialized(epoch, epoch_hash, last_hash)]
                {
                    &&& final(runtime).calls() == old(runtime).calls()
                        + old(self)@.epoch_hash_requests(epoch, epoch_hash, last_hash)
                    &&& final(self)@ == old(self)@.epoch_initialized(epoch, epoch_hash, last_hash)
                },
    {
        let ghost s0 = self@;
        let ghost c0 = runtime.calls();
        if epoch == self.current_epoch + 1 || epoch == 0 {
            let length = self.config.epoch_length;
            let epoch_hash = runtime.block_hash(epoch * length);
            let last_hash = if epoch != 0 {
                assert((epoch - 1) * length <= epoch * length) by (nonlinear_arith)
                    requires
                        epoch >= 1,
                ;
                runtime.block_hash((epoch - 1) * length)
            } else {
                BlockHash::zero()
            };
            assert(runtime.calls() =~= c0 + s0.epoch_hash_requests(epoch, epoch_hash, last_hash));
            self.start_epoch(epoch, epoch_hash, last_hash);
            assert(self@ == s0.epoch_initialized(epoch, epoch_hash, last_hash));
        } else {
            self.start_epoch(epoch, BlockHash::zero(), BlockHash::zero());
            assert(runtime.calls() =~= c0 + s0.epoch_hash_requests(
                epoch,
                BlockHash::zero_spec(),
                BlockHash::zero_spec(),
            ));
            assert(self@ == s0.epoch_initialized(epoch, BlockHash::zero_spec(), BlockHash::zero_spec()));
        }
    }

    /// The epoch that block `now` starts: the block after each multiple of
    /// the epoch length starts the epoch numbered by that multiple.
    pub fn epoch_started_at(&self, now: BlockNumber) -> (r: Option<Epoch>)
        requires
            self@.config.epoch_length > 0,
        ensures
            r == (if now % self@.config.epoch_length == 1 {
                Some((now / self@.config.epoch_length) as Epoch)
            } else {
                None::<Epoch>
            }),
    {
        let length = self.config.epoch_length;
        if now % length == 1 {
            Some(now / length)
        } else {
            None
        }
    }

    /// Runs at the start of block `now`: the block after each multiple of
    /// the epoch length starts the next epoch. Gives back the weight used.
    pub fn on_initialize<T: Trait>(&mut self, runtime: &mut Runtime<T>, now: BlockNumber) -> (weight: u64)
        requires
            old(self)@.config.epoch_length > 0,
            now % old(self)@.config.epoch_length == 1 ==> old(self)@.initialize_epoch_defined(
                (now / old(self)@.config.epoch_length) as Epoch,
            ),
        ensures
            weight == 0,
            now % old(self)@.config.epoch_length == 1 ==> exists|
                epoch_hash: BlockHash,
                last_hash: BlockHash,
            |
                #![trigger old(self)@.epoch_initialized(
                    (now / old(self)@.config.epoch_length) as Epoch,
                    epoch_hash,
                    last_hash,
                )]
                {
                    &&& final(runtime).calls() == old(runtime).calls()
                        + old(self)@.epoch_hash_requests(
                        (now / old(self)@.config.epoch_length) as Epoch,
                        epoch_hash,
                        last_hash,
                    )
                    &&& final(self)@ == old(self)@.epoch_initialized(
                        (now / old(self)@.config.epoch_length) as Epoch,
                        epoch_hash,
                        last_hash,
                    )
                },
            now % old(self)@.config.epoch_length != 1 ==> final(self)@ == old(self)@
                && final(runtime).calls() == old(runtime).calls(),
    {
        match self.epoch_started_at(now) {
            Some(epoch) => {
                let length = self.config.epoch_length;
                assert(epoch * length <= now) by (nonlinear_arith)
                    requires
                        epoch == now / length,
                        length > 0,
                ;
                self.initialize_epoch(runtime, epoch);
            },
            None => {},
        }
        0
    }
}

} // verus!
