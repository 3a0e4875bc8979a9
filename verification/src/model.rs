//! The mathematical model of the module's storage and of what each call
//! does to it.
use crate::types::{
    AccountId, Balance, BlockHash, BlockNumber, CheckPointsView, Config, DispatchError, Dynasty, Epoch, Error,
    Event, Origin, RuntimeCall, Validator, ValidatorId, saturating_mul_spec,
};
use vstd::prelude::*;

verus! {

/// The value stored under `k`, or `d` where nothing is stored: how a
/// storage read with a default behaves.
pub open spec fn value_or<K, V>(m: Map<K, V>, k: K, d: V) -> V {
    if m.contains_key(k) {
        m[k]
    } else {
        d
    }
}

/// The whole storage of the module.
#[verifier::ext_equal]
pub struct CasperState {
    pub config: Config,
    /// Last validator id handed out; ids start from 1.
    pub next_validator_id: ValidatorId,
    pub current_epoch: Epoch,
    pub current_dynasty: Dynasty,
    /// The source epoch that earns a reward when voted on.
    pub expected_source_epoch: Epoch,
    /// Whether the current epoch's checkpoint was justified.
    pub main_hash_justified: bool,
    pub last_finalized_epoch: Epoch,
    pub last_justified_epoch: Epoch,
    pub total_cur_dyn_deposits: Balance,
    pub total_pre_dyn_deposits: Balance,
    /// Target hash for validators to vote on.
    pub recommended_target_hash: BlockHash,
    pub last_finalized_hash: BlockHash,
    pub validator_by_id: Map<ValidatorId, Validator>,
    pub validator_id_by_account: Map<AccountId, ValidatorId>,
    pub check_point_hash: Map<Dynasty, BlockHash>,
    pub new_deposit_in_dynasty: Map<Dynasty, Balance>,
    pub withdrawed_deposit_in_dynasty: Map<Dynasty, Balance>,
    pub dynasty_start_epoch: Map<Dynasty, Epoch>,
    pub dynasty_in_epoch: Map<Epoch, Dynasty>,
    pub check_points_by_epoch: Map<Epoch, CheckPointsView>,
    /// Votes of the current dynasty, by (target epoch, source epoch).
    pub current_dynasty_votes: Map<(Epoch, Epoch), Balance>,
    /// Votes of the previous dynasty, by (target epoch, source epoch).
    pub pre_dynasty_votes: Map<(Epoch, Epoch), Balance>,
}

impl CasperState {
    /// The storage of a fresh chain: every entry at its default.
    pub open spec fn genesis(config: Config) -> CasperState {
        CasperState {
            config,
            next_validator_id: 0,
            current_epoch: 0,
            current_dynasty: 0,
            expected_source_epoch: 0,
            main_hash_justified: false,
            last_finalized_epoch: 0,
            last_justified_epoch: 0,
            total_cur_dyn_deposits: 0,
            total_pre_dyn_deposits: 0,
            recommended_target_hash: BlockHash::zero_spec(),
            last_finalized_hash: BlockHash::zero_spec(),
            validator_by_id: Map::empty(),
            validator_id_by_account: Map::empty(),
            check_point_hash: Map::empty(),
            new_deposit_in_dynasty: Map::empty(),
            withdrawed_deposit_in_dynasty: Map::empty(),
            dynasty_start_epoch: Map::empty(),
            dynasty_in_epoch: Map::empty(),
            check_points_by_epoch: Map::empty(),
            current_dynasty_votes: Map::empty(),
            pre_dynasty_votes: Map::empty(),
        }
    }

    pub open spec fn validator(self, id: ValidatorId) -> Option<Validator> {
        if self.validator_by_id.contains_key(id) {
            Some(self.validator_by_id[id])
        } else {
            None
        }
    }

    pub open spec fn checkpoint(self, epoch: Epoch) -> CheckPointsView {
        value_or(self.check_points_by_epoch, epoch, CheckPointsView::empty())
    }

    pub open spec fn id_of_account(self, account: AccountId) -> ValidatorId {
        value_or(self.validator_id_by_account, account, 0)
    }

    pub open spec fn new_deposit(self, dynasty: Dynasty) -> Balance {
        value_or(self.new_deposit_in_dynasty, dynasty, 0)
    }

    pub open spec fn withdrawed_deposit(self, dynasty: Dynasty) -> Balance {
        value_or(self.withdrawed_deposit_in_dynasty, dynasty, 0)
    }

    pub open spec fn start_epoch_of(self, dynasty: Dynasty) -> Epoch {
        value_or(self.dynasty_start_epoch, dynasty, 0)
    }

    /// The same storage with `cp` as the checkpoint of `epoch`.
    pub open spec fn with_checkpoint(self, epoch: Epoch, cp: CheckPointsView) -> CasperState {
        CasperState { check_points_by_epoch: self.check_points_by_epoch.insert(epoch, cp), ..self }
    }

    /// Whether `dynasty` lies in the validator's `[start_dynasty, end_dynasty)`.
    pub open spec fn in_dynasty(self, id: ValidatorId, dynasty: Dynasty) -> bool {
        match self.validator(id) {
            Some(v) => v.start_dynasty <= dynasty && dynasty < v.end_dynasty,
            None => false,
        }
    }

    /// Both dynasties hold some deposit.
    pub open spec fn deposit_exists(self) -> bool {
        self.total_cur_dyn_deposits > 0 && self.total_pre_dyn_deposits > 0
    }

    // ---------------------------------------------------------------
    // Reward
    // ---------------------------------------------------------------

    /// The reward for one vote on the expected source epoch:
    /// deposit * reward_factor / reward_rate_base.
    pub open spec fn reward_for(self, deposit: Balance) -> int {
        deposit * self.config.reward_factor / (self.config.reward_rate_base as int)
    }

    /// The reward can be paid without a division by zero or an overflow.
    pub open spec fn reward_defined(self, id: ValidatorId) -> bool {
        match self.validator(id) {
            Some(v) => self.config.reward_rate_base > 0 && v.reward + self.reward_for(v.deposit)
                <= u128::MAX,
            None => true,
        }
    }

    /// The storage after paying validator `id` its reward.
    pub open spec fn rewarded(self, id: ValidatorId) -> CasperState {
        match self.validator(id) {
            Some(v) => CasperState {
                validator_by_id: self.validator_by_id.insert(
                    id,
                    Validator { reward: (v.reward + self.reward_for(v.deposit)) as u128, ..v },
                ),
                ..self
            },
            None => self,
        }
    }

    // ---------------------------------------------------------------
    // Vote
    // ---------------------------------------------------------------

    /// Whether a vote is admitted, and the first check that refuses it.
    pub open spec fn vote_check(
        self,
        sender: AccountId,
        id: ValidatorId,
        source_epoch: Epoch,
        target_epoch: Epoch,
        target_hash: BlockHash,
    ) -> Result<(), Error> {
        if target_epoch != self.current_epoch {
            Err(Error::WrongTargetEpoch)
        } else if self.validator(id) is None {
            Err(Error::ValidatorNotRegistered)
        } else if self.validator(id)->0.address != sender {
            Err(Error::VoteSenderDifferWithRegistered)
        } else if self.checkpoint(target_epoch).vote_account_set.contains(id) {
            Err(Error::SenderVotedBefore)
        } else if target_hash != self.recommended_target_hash {
            Err(Error::VoteOnWrongBlockHash)
        } else if self.in_dynasty(id, self.current_dynasty) || (self.current_dynasty > 0
            && self.in_dynasty(id, (self.current_dynasty - 1) as Dynasty)) {
            if self.checkpoint(source_epoch).is_justified {
                Ok(())
            } else {
                Err(Error::VotedSourceEpochNotJustified)
            }
        } else {
            Err(Error::VoteNotInCorrectDynasty)
        }
    }

    /// Votes counted for the link from `source_epoch` to `target_epoch` in
    /// the current dynasty, with validator `id`'s deposit added where it
    /// belongs to that dynasty.
    pub open spec fn current_votes(
        self,
        id: ValidatorId,
        source_epoch: Epoch,
        target_epoch: Epoch,
    ) -> int {
        let base = value_or(self.current_dynasty_votes, (target_epoch, source_epoch), 0);
        if self.in_dynasty(id, self.current_dynasty) {
            base + self.validator(id)->0.deposit
        } else {
            base as int
        }
    }

    /// Votes counted for the link from `source_epoch` to `target_epoch` in
    /// the previous dynasty, with validator `id`'s deposit added where it
    /// belongs to that dynasty.
    pub open spec fn previous_votes(
        self,
        id: ValidatorId,
        source_epoch: Epoch,
        target_epoch: Epoch,
    ) -> int {
        let base = value_or(self.pre_dynasty_votes, (target_epoch, source_epoch), 0);
        if self.current_dynasty > 0 && self.in_dynasty(id, (self.current_dynasty - 1) as Dynasty) {
            base + self.validator(id)->0.deposit
        } else {
            base as int
        }
    }

    /// With validator `id`'s vote, the votes for the link reach two thirds
    /// of the deposits of both dynasties.
    pub open spec fn supermajority(
        self,
        id: ValidatorId,
        source_epoch: Epoch,
        target_epoch: Epoch,
    ) -> bool {
        let cur = self.current_votes(id, source_epoch, target_epoch) as u128;
        let prev = self.previous_votes(id, source_epoch, target_epoch) as u128;
        saturating_mul_spec(cur, 3) >= saturating_mul_spec(self.total_cur_dyn_deposits, 2)
            && saturating_mul_spec(prev, 3) >= saturating_mul_spec(self.total_pre_dyn_deposits, 2)
    }

    /// The storage after justifying the target epoch, and finalizing the
    /// source epoch where the two are consecutive.
    pub open spec fn justified(
        self,
        source_epoch: Epoch,
        target_epoch: Epoch,
        target_hash: BlockHash,
    ) -> CasperState {
        let t = self.checkpoint(target_epoch);
        let s1 = CasperState {
            last_justified_epoch: target_epoch,
            main_hash_justified: true,
            ..self.with_checkpoint(target_epoch, CheckPointsView { is_justified: true, ..t })
        };
        if target_epoch == source_epoch + 1 {
            let s = s1.checkpoint(source_epoch);
            CasperState {
                last_finalized_hash: target_hash,
                last_finalized_epoch: source_epoch,
                ..s1.with_checkpoint(source_epoch, CheckPointsView { is_finalized: true, ..s })
            }
        } else {
            s1
        }
    }

    /// The storage with the validator's vote counted for the link.
    pub open spec fn votes_counted(
        self,
        id: ValidatorId,
        source_epoch: Epoch,
        target_epoch: Epoch,
    ) -> CasperState {
        let key = (target_epoch, source_epoch);
        CasperState {
            current_dynasty_votes: self.current_dynasty_votes.insert(
                key,
                self.current_votes(id, source_epoch, target_epoch) as Balance,
            ),
            pre_dynasty_votes: self.pre_dynasty_votes.insert(
                key,
                self.previous_votes(id, source_epoch, target_epoch) as Balance,
            ),
            ..self
        }
    }

    /// The storage after an admitted vote.
    pub open spec fn voted(
        self,
        id: ValidatorId,
        source_epoch: Epoch,
        target_epoch: Epoch,
        target_hash: BlockHash,
    ) -> CasperState {
        let s0 = self.votes_counted(id, source_epoch, target_epoch);
        let s1 = if self.expected_source_epoch == source_epoch {
            s0.rewarded(id)
        } else {
            s0
        };
        let s2 = if self.supermajority(id, source_epoch, target_epoch) && !s1.checkpoint(
            target_epoch,
        ).is_justified {
            s1.justified(source_epoch, target_epoch, target_hash)
        } else {
            s1
        };
        let t = s2.checkpoint(target_epoch);
        s2.with_checkpoint(
            target_epoch,
            CheckPointsView { vote_account_set: t.vote_account_set.insert(id), ..t },
        )
    }

    /// An admitted vote computes without overflow.
    pub open spec fn vote_arith_defined(
        self,
        id: ValidatorId,
        source_epoch: Epoch,
        target_epoch: Epoch,
    ) -> bool {
        &&& self.current_votes(id, source_epoch, target_epoch) <= u128::MAX
        &&& self.previous_votes(id, source_epoch, target_epoch) <= u128::MAX
        &&& self.expected_source_epoch == source_epoch ==> self.reward_defined(id)
        &&& (self.supermajority(id, source_epoch, target_epoch) && !self.checkpoint(
            target_epoch,
        ).is_justified) ==> source_epoch < u32::MAX
    }

    /// A vote by `origin` runs without a panic.
    pub open spec fn vote_defined(
        self,
        origin: Origin,
        id: ValidatorId,
        source_epoch: Epoch,
        target_epoch: Epoch,
        target_hash: BlockHash,
    ) -> bool {
        match origin {
            Origin::Signed(who) => self.vote_check(who, id, source_epoch, target_epoch, target_hash)
                is Ok ==> self.vote_arith_defined(id, source_epoch, target_epoch),
            _ => true,
        }
    }

    /// Storage and result after a vote.
    pub open spec fn vote(
        self,
        origin: Origin,
        id: ValidatorId,
        source_epoch: Epoch,
        target_epoch: Epoch,
        target_hash: BlockHash,
    ) -> (CasperState, Result<Event, DispatchError>) {
        match origin {
            Origin::Signed(who) => match self.vote_check(
                who,
                id,
                source_epoch,
                target_epoch,
                target_hash,
            ) {
                Ok(_) => (
                    self.voted(id, source_epoch, target_epoch, target_hash),
                    Ok(Event::Vote(who, id, source_epoch, target_epoch, target_hash)),
                ),
                Err(e) => (self, Err(DispatchError::Module(e))),
            },
            _ => (self, Err(DispatchError::BadOrigin)),
        }
    }

    // ---------------------------------------------------------------
    // Logout
    // ---------------------------------------------------------------

    /// A logout by `origin` runs without an overflow.
    pub open spec fn logout_defined(self, origin: Origin, id: ValidatorId, epoch: Epoch) -> bool {
        match (origin, self.validator(id)) {
            (Origin::Signed(who), Some(v)) => (self.current_epoch >= epoch && v.withdraw_address
                == who) ==> self.current_dynasty + self.config.logout_delay <= u32::MAX,
            _ => true,
        }
    }

    /// Storage and result of a logout: the validator's end dynasty becomes
    /// the current dynasty plus the logout delay.
    pub open spec fn logout(self, origin: Origin, id: ValidatorId, epoch: Epoch) -> (
        CasperState,
        Result<Event, DispatchError>,
    ) {
        match origin {
            Origin::Signed(who) => if self.current_epoch < epoch {
                (self, Err(DispatchError::Module(Error::EpochNotReachedForLogout)))
            } else {
                match self.validator(id) {
                    Some(v) => if v.withdraw_address != who {
                        (self, Err(DispatchError::Module(Error::OnlyWithdrawAccountCanLogout)))
                    } else if v.end_dynasty < self.current_dynasty + self.config.logout_delay {
                        (self, Err(DispatchError::Module(Error::DynastyNotReachedForLogout)))
                    } else {
                        let end = (self.current_dynasty + self.config.logout_delay) as Dynasty;
                        (
                            CasperState {
                                validator_by_id: self.validator_by_id.insert(
                                    id,
                                    Validator { end_dynasty: end, ..v },
                                ),
                                ..self
                            },
                            Ok(Event::Logout(id, epoch)),
                        )
                    },
                    None => (self, Err(DispatchError::Module(Error::ValidatorNotRegistered))),
                }
            },
            _ => (self, Err(DispatchError::BadOrigin)),
        }
    }

    // ---------------------------------------------------------------
    // Withdraw
    // ---------------------------------------------------------------

    /// The checks of a withdrawal: the end dynasty must be over, and the
    /// withdraw delay must have passed since the dynasty after it began.
    pub open spec fn withdraw_check(self, id: ValidatorId) -> Result<Validator, Error> {
        match self.validator(id) {
            Some(v) => if self.current_dynasty <= v.end_dynasty {
                Err(Error::DynastyNotReachedForWithdraw)
            } else if self.current_epoch < self.start_epoch_of((v.end_dynasty + 1) as Dynasty)
                + self.config.withdraw_delay {
                Err(Error::EpochNotReachedForWithdraw)
            } else {
                Ok(v)
            },
            None => Err(Error::ValidatorNotRegistered),
        }
    }

    /// A withdrawal runs without an overflow.
    pub open spec fn withdraw_defined(self, origin: Origin, id: ValidatorId) -> bool {
        match (origin, self.validator(id)) {
            (Origin::Signed(_), Some(v)) => self.current_dynasty > v.end_dynasty ==> self.start_epoch_of(
                (v.end_dynasty + 1) as Dynasty,
            ) + self.config.withdraw_delay <= u32::MAX,
            _ => true,
        }
    }

    /// The requests a withdrawal makes to the currency: unreserve the
    /// deposit, then pay the reward, both to the withdraw account.
    pub open spec fn withdraw_requests(
        self,
        origin: Origin,
        id: ValidatorId,
        rest: Balance,
        paid: Result<(), DispatchError>,
    ) -> Seq<RuntimeCall> {
        match (origin, self.withdraw_check(id)) {
            (Origin::Signed(_), Ok(v)) => seq![
                RuntimeCall::Unreserve(v.withdraw_address, v.deposit, rest),
                RuntimeCall::DepositIntoExisting(v.withdraw_address, v.reward, paid),
            ],
            _ => Seq::empty(),
        }
    }

    /// Storage and result of a withdrawal, given what the currency answered
    /// to paying the reward into the withdraw account.
    pub open spec fn withdraw(
        self,
        origin: Origin,
        id: ValidatorId,
        paid: Result<(), DispatchError>,
    ) -> (CasperState, Result<Event, DispatchError>) {
        match origin {
            Origin::Signed(_) => match self.withdraw_check(id) {
                Ok(v) => match paid {
                    Ok(_) => (
                        CasperState {
                            validator_id_by_account: self.validator_id_by_account.remove(
                                v.withdraw_address,
                            ),
                            validator_by_id: self.validator_by_id.remove(id),
                            ..self
                        },
                        Ok(Event::Withdraw(id)),
                    ),
                    Err(e) => (self, Err(e)),
                },
                Err(e) => (self, Err(DispatchError::Module(e))),
            },
            _ => (self, Err(DispatchError::BadOrigin)),
        }
    }

    // ---------------------------------------------------------------
    // Deposit
    // ---------------------------------------------------------------

    /// The checks of a deposit.
    pub open spec fn deposit_check(self, amount: Balance, withdraw_address: AccountId) -> Result<
        (),
        Error,
    > {
        if self.id_of_account(withdraw_address) != 0 {
            Err(Error::ValidatorIdNotValid)
        } else if amount < self.config.min_deposit {
            Err(Error::DepositLessThanMinimum)
        } else {
            Ok(())
        }
    }

    /// The requests a deposit makes to the currency: reserve the amount
    /// from the signer, once the checks pass.
    pub open spec fn deposit_requests(
        self,
        origin: Origin,
        amount: Balance,
        withdraw_address: AccountId,
        reserved: Result<(), DispatchError>,
    ) -> Seq<RuntimeCall> {
        match origin {
            Origin::Signed(who) => if self.deposit_check(amount, withdraw_address) is Ok {
                seq![RuntimeCall::Reserve(who, amount, reserved)]
            } else {
                Seq::empty()
            },
            _ => Seq::empty(),
        }
    }

    /// A deposit that passes its checks computes without an overflow.
    pub open spec fn deposit_defined(
        self,
        origin: Origin,
        amount: Balance,
        withdraw_address: AccountId,
    ) -> bool {
        match origin {
            Origin::Signed(_) => self.deposit_check(amount, withdraw_address) is Ok ==> {
                &&& self.next_validator_id < u128::MAX
                &&& self.current_dynasty + 2 <= u32::MAX
                &&& self.new_deposit((self.current_dynasty + 2) as Dynasty) + amount <= u128::MAX
            },
            _ => true,
        }
    }

    /// The storage after registering a new validator.
    pub open spec fn registered(
        self,
        who: AccountId,
        amount: Balance,
        end_dynasty: Dynasty,
        withdraw_address: AccountId,
    ) -> CasperState {
        let id = (self.next_validator_id + 1) as ValidatorId;
        let start = (self.current_dynasty + 2) as Dynasty;
        CasperState {
            next_validator_id: id,
            new_deposit_in_dynasty: self.new_deposit_in_dynasty.insert(
                start,
                (self.new_deposit(start) + amount) as Balance,
            ),
            validator_by_id: self.validator_by_id.insert(
                id,
                Validator {
                    deposit: amount,
                    reward: 0,
                    start_dynasty: start,
                    end_dynasty,
                    address: who,
                    withdraw_address,
                },
            ),
            validator_id_by_account: self.validator_id_by_account.insert(withdraw_address, id),
            ..self
        }
    }

    /// Storage and result of a deposit, given what the currency answered to
    /// reserving the amount.
    pub open spec fn deposit(
        self,
        origin: Origin,
        amount: Balance,
        end_dynasty: Dynasty,
        withdraw_address: AccountId,
        reserved: Result<(), DispatchError>,
    ) -> (CasperState, Result<Event, DispatchError>) {
        match origin {
            Origin::Signed(who) => match self.deposit_check(amount, withdraw_address) {
                Ok(_) => match reserved {
                    Ok(_) => (
                        self.registered(who, amount, end_dynasty, withdraw_address),
                        Ok(Event::Deposit(who, withdraw_address, end_dynasty)),
                    ),
                    Err(e) => (self, Err(e)),
                },
                Err(e) => (self, Err(DispatchError::Module(e))),
            },
            _ => (self, Err(DispatchError::BadOrigin)),
        }
    }

    // ---------------------------------------------------------------
    // Epochs
    // ---------------------------------------------------------------

    /// The storage after finalizing the previous epoch at once, with
    /// `last_hash` the hash of that epoch's first block.
    pub open spec fn instantly_finalized(self, last_hash: BlockHash) -> CasperState {
        if self.current_epoch < 1 {
            self
        } else {
            let last = (self.current_epoch - 1) as Epoch;
            let c = self.checkpoint(last);
            CasperState {
                main_hash_justified: true,
                last_finalized_hash: last_hash,
                last_finalized_epoch: last,
                last_justified_epoch: last,
                ..self.with_checkpoint(
                    last,
                    CheckPointsView { is_justified: true, is_finalized: true, ..c },
                )
            }
        }
    }

    /// The dynasty advances: the checkpoint two epochs back is finalized.
    pub open spec fn dynasty_advances(self) -> bool {
        self.current_epoch > 1 && self.checkpoint((self.current_epoch - 2) as Epoch).is_finalized
    }

    /// Advancing the dynasty runs without an overflow.
    pub open spec fn increment_dynasty_defined(self) -> bool {
        let d = self.current_dynasty + 1;
        &&& self.dynasty_advances() ==> {
            &&& d <= u32::MAX
            &&& self.total_cur_dyn_deposits + self.new_deposit(d as Dynasty) <= u128::MAX
            &&& self.total_cur_dyn_deposits + self.new_deposit(d as Dynasty)
                >= self.withdrawed_deposit(d as Dynasty)
        }
        &&& self.main_hash_justified ==> self.current_epoch >= 1
    }

    /// The storage after trying to advance the dynasty.
    pub open spec fn dynasty_incremented(self) -> CasperState {
        let s1 = if self.dynasty_advances() {
            let d = (self.current_dynasty + 1) as Dynasty;
            CasperState {
                current_dynasty: d,
                total_pre_dyn_deposits: self.total_cur_dyn_deposits,
                total_cur_dyn_deposits: (self.total_cur_dyn_deposits + self.new_deposit(d)
                    - self.withdrawed_deposit(d)) as Balance,
                dynasty_start_epoch: self.dynasty_start_epoch.insert(d, self.current_epoch),
                ..self
            }
        } else {
            self
        };
        let s2 = CasperState {
            dynasty_in_epoch: s1.dynasty_in_epoch.insert(s1.current_epoch, s1.current_dynasty),
            ..s1
        };
        let s3 = if s2.main_hash_justified {
            CasperState { expected_source_epoch: (s2.current_epoch - 1) as Epoch, ..s2 }
        } else {
            s2
        };
        CasperState { main_hash_justified: false, ..s3 }
    }

    /// Whether `epoch` is one that `initialize_epoch` starts.
    pub open spec fn starts_epoch(self, epoch: Epoch) -> bool {
        epoch == self.current_epoch + 1 || epoch == 0
    }

    /// The storage once the new epoch's checkpoint is in place, before the
    /// dynasty is advanced.
    pub open spec fn epoch_opened(self, epoch: Epoch, epoch_hash: BlockHash, last_hash: BlockHash) -> CasperState {
        let s1 = CasperState {
            current_epoch: epoch,
            ..self.with_checkpoint(
                epoch,
                CheckPointsView {
                    cur_dyn_deposits: self.total_cur_dyn_deposits,
                    prev_dyn_deposits: self.total_pre_dyn_deposits,
                    vote_account_set: Set::empty(),
                    is_justified: false,
                    is_finalized: false,
                },
            )
        };
        let s2 = if !s1.deposit_exists() {
            s1.instantly_finalized(last_hash)
        } else {
            s1
        };
        CasperState { check_point_hash: s2.check_point_hash.insert(s2.current_dynasty, epoch_hash), ..s2 }
    }

    /// The hash reads that starting `epoch` makes: the first block of the
    /// epoch, then, for an epoch after 0, the first block of the previous
    /// epoch.
    pub open spec fn epoch_hash_requests(
        self,
        epoch: Epoch,
        epoch_hash: BlockHash,
        last_hash: BlockHash,
    ) -> Seq<RuntimeCall> {
        let length = self.config.epoch_length;
        if !self.starts_epoch(epoch) {
            Seq::empty()
        } else if epoch == 0 {
            seq![RuntimeCall::BlockHash((epoch * length) as BlockNumber, epoch_hash)]
        } else {
            seq![
                RuntimeCall::BlockHash((epoch * length) as BlockNumber, epoch_hash),
                RuntimeCall::BlockHash(((epoch - 1) * length) as BlockNumber, last_hash),
            ]
        }
    }

    /// Starting `epoch` runs without a panic, given the hashes.
    pub open spec fn initialize_epoch_defined(self, epoch: Epoch) -> bool {
        &&& self.current_epoch < u32::MAX
        &&& self.starts_epoch(epoch) ==> self.epoch_opened(
            epoch,
            BlockHash::zero_spec(),
            BlockHash::zero_spec(),
        ).increment_dynasty_defined()
    }

    /// The storage after starting `epoch`, with `epoch_hash` the hash of the
    /// epoch's first block and `last_hash` that of the previous epoch's.
    pub open spec fn epoch_initialized(self, epoch: Epoch, epoch_hash: BlockHash, last_hash: BlockHash) -> CasperState {
        if self.starts_epoch(epoch) {
            let s = self.epoch_opened(epoch, epoch_hash, last_hash).dynasty_incremented();
            if epoch != 0 {
                CasperState { recommended_target_hash: last_hash, ..s }
            } else {
                s
            }
        } else {
            self
        }
    }
}

} // verus!
