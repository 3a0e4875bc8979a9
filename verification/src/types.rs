//! The values that the Casper module keeps and exchanges: validators,
//! checkpoints, the runtime constants, origins, events and errors.
use std::collections::BTreeSet;
use vstd::prelude::*;

verus! {

/// Account identifier of the chain.
pub type AccountId = u64;

/// Amount of currency.
pub type Balance = u128;

/// Dynasty counter: a dynasty changes when a checkpoint two epochs back is finalized.
pub type Dynasty = u32;

/// Epoch counter: an epoch spans `epoch_length` blocks.
pub type Epoch = u32;

/// Block number of the chain.
pub type BlockNumber = u32;

/// Identifier the module hands out to each validator; 0 stands for "none".
pub type ValidatorId = u128;

/// A 256-bit block hash, held as its high and low 128 bits.
#[derive(Clone, Copy, PartialEq, Eq, Structural, Debug)]
pub struct BlockHash {
    pub high: u128,
    pub low: u128,
}

impl BlockHash {
    /// The all-zero hash, which storage reads give back for a missing entry.
    pub open spec fn zero_spec() -> BlockHash {
        BlockHash { high: 0, low: 0 }
    }

    pub fn zero() -> (h: BlockHash)
        ensures
            h == BlockHash::zero_spec(),
    {
        BlockHash { high: 0, low: 0 }
    }
}

/// Info for each validator.
#[derive(Clone, Copy, PartialEq, Eq, Structural, Debug)]
pub struct Validator {
    /// Deposited balance of the validator.
    pub deposit: Balance,
    /// Reward earned by votes on the expected source epoch.
    pub reward: Balance,
    /// First dynasty in which the validator may vote.
    pub start_dynasty: Dynasty,
    /// Dynasty from which the validator no longer votes.
    pub end_dynasty: Dynasty,
    /// Account that made the deposit and signs the votes.
    pub address: AccountId,
    /// Account that gets the deposit and the reward back.
    pub withdraw_address: AccountId,
}

/// Checkpoint record for each epoch.
#[derive(Debug)]
pub struct CheckPoints {
    /// Total deposit of the current dynasty when the epoch began.
    pub cur_dyn_deposits: Balance,
    /// Total deposit of the previous dynasty when the epoch began.
    pub prev_dyn_deposits: Balance,
    /// All validators who voted with this epoch as target.
    pub vote_account_set: BTreeSet<ValidatorId>,
    /// Whether this epoch is justified.
    pub is_justified: bool,
    /// Whether this epoch is finalized.
    pub is_finalized: bool,
}

/// What a checkpoint holds, with its vote set as a mathematical set.
#[verifier::ext_equal]
pub struct CheckPointsView {
    pub cur_dyn_deposits: Balance,
    pub prev_dyn_deposits: Balance,
    pub vote_account_set: Set<ValidatorId>,
    pub is_justified: bool,
    pub is_finalized: bool,
}

impl CheckPointsView {
    /// The checkpoint that a read of a missing epoch gives back.
    pub open spec fn empty() -> CheckPointsView {
        CheckPointsView {
            cur_dyn_deposits: 0,
            prev_dyn_deposits: 0,
            vote_account_set: Set::empty(),
            is_justified: false,
            is_finalized: false,
        }
    }
}

impl View for CheckPoints {
    type V = CheckPointsView;

    open spec fn view(&self) -> CheckPointsView {
        CheckPointsView {
            cur_dyn_deposits: self.cur_dyn_deposits,
            prev_dyn_deposits: self.prev_dyn_deposits,
            vote_account_set: self.vote_account_set@,
            is_justified: self.is_justified,
            is_finalized: self.is_finalized,
        }
    }
}

impl CheckPoints {
    /// A checkpoint with the given deposits, no votes, neither justified nor finalized.
    pub fn new(cur_dyn_deposits: Balance, prev_dyn_deposits: Balance) -> (c: CheckPoints)
        ensures
            c@ == (CheckPointsView {
                cur_dyn_deposits,
                prev_dyn_deposits,
                vote_account_set: Set::empty(),
                is_justified: false,
                is_finalized: false,
            }),
    {
        CheckPoints {
            cur_dyn_deposits,
            prev_dyn_deposits,
            vote_account_set: BTreeSet::new(),
            is_justified: false,
            is_finalized: false,
        }
    }

    /// A copy of this checkpoint.
    pub fn duplicate(&self) -> (c: CheckPoints)
        ensures
            c@ == self@,
    {
        CheckPoints {
            cur_dyn_deposits: self.cur_dyn_deposits,
            prev_dyn_deposits: self.prev_dyn_deposits,
            vote_account_set: self.vote_account_set.clone(),
            is_justified: self.is_justified,
            is_finalized: self.is_finalized,
        }
    }

    /// Whether `id` voted with this epoch as target.
    pub fn has_voted(&self, id: ValidatorId) -> (r: bool)
        ensures
            r == self@.vote_account_set.contains(id),
    {
        self.vote_account_set.contains(&id)
    }
}

impl Default for CheckPoints {
    fn default() -> (c: CheckPoints)
        ensures
            c@ == CheckPointsView::empty(),
    {
        CheckPoints::new(0, 0)
    }
}

/// The constants that the runtime configures the module with.
#[derive(Clone, Copy, PartialEq, Eq, Structural, Debug)]
pub struct Config {
    /// Reward = deposit * reward_factor / reward_rate_base.
    pub reward_factor: u32,
    pub reward_rate_base: u32,
    /// Number of blocks in an epoch.
    pub epoch_length: u32,
    /// Epochs that must pass, after the dynasty following the end dynasty
    /// starts, before a withdrawal is allowed.
    pub withdraw_delay: u32,
    /// A logout sets the end dynasty to the current dynasty plus this delay;
    /// it is refused where the end dynasty is already earlier than that.
    pub logout_delay: u32,
    /// Minimum deposit to become a validator.
    pub min_deposit: Balance,
}

/// Who sent a call.
#[derive(Clone, Copy, PartialEq, Eq, Structural, Debug)]
pub enum Origin {
    Root,
    Signed(AccountId),
    Unsigned,
}

/// The errors of the Casper module.
#[derive(Clone, Copy, PartialEq, Eq, Structural, Debug)]
pub enum Error {
    EpochNotReachedForLogout,
    ValidatorNotRegistered,
    OnlyWithdrawAccountCanLogout,
    DynastyNotReachedForLogout,
    DynastyNotReachedForWithdraw,
    EpochNotReachedForWithdraw,
    ValidatorIdNotValid,
    DepositLessThanMinimum,
    WrongTargetEpoch,
    VoteSenderDifferWithRegistered,
    SenderVotedBefore,
    VoteOnWrongBlockHash,
    VoteNotInCorrectDynasty,
    VotedSourceEpochNotJustified,
}

/// Why a call failed.
#[derive(Clone, Copy, PartialEq, Eq, Structural, Debug)]
pub enum DispatchError {
    /// The call was not signed.
    BadOrigin,
    /// The module refused the call.
    Module(Error),
    /// The currency refused an operation; the code is the currency's own.
    Currency(u32),
}

/// What a successful call reports.
#[derive(Clone, Copy, PartialEq, Eq, Structural, Debug)]
pub enum Event {
    /// Depositor, withdraw address, end dynasty.
    Deposit(AccountId, AccountId, Dynasty),
    /// Sender, validator, source epoch, target epoch, target hash.
    Vote(AccountId, ValidatorId, Epoch, Epoch, BlockHash),
    /// Validator, epoch.
    Logout(ValidatorId, Epoch),
    /// Validator.
    Withdraw(ValidatorId),
}

/// One request the module made to the runtime, with the answer it got.
#[derive(Clone, Copy, Debug)]
pub enum RuntimeCall {
    /// `reserve(who, amount)` and its answer.
    Reserve(AccountId, Balance, Result<(), DispatchError>),
    /// `unreserve(who, amount)` and the part that stayed reserved.
    Unreserve(AccountId, Balance, Balance),
    /// `deposit_into_existing(who, amount)` and its answer.
    DepositIntoExisting(AccountId, Balance, Result<(), DispatchError>),
    /// `block_hash(number)` and the hash it gave.
    BlockHash(BlockNumber, BlockHash),
}

/// The signer of a signed origin, or `BadOrigin`.
pub open spec fn signer(origin: Origin) -> Result<AccountId, DispatchError> {
    match origin {
        Origin::Signed(who) => Ok(who),
        _ => Err(DispatchError::BadOrigin),
    }
}

/// Checks that the origin is signed and gives back its account.
pub fn ensure_signed(origin: Origin) -> (r: Result<AccountId, DispatchError>)
    ensures
        r == signer(origin),
{
    match origin {
        Origin::Signed(who) => Ok(who),
        _ => Err(DispatchError::BadOrigin),
    }
}

/// `x * y`, or the largest `u128` where the product does not fit.
pub open spec fn saturating_mul_spec(x: u128, y: u128) -> u128 {
    if x * y > u128::MAX {
        u128::MAX
    } else {
        (x * y) as u128
    }
}

/// Multiplication that stops at the largest `u128`.
pub fn saturating_mul(x: u128, y: u128) -> (r: u128)
    ensures
        r == saturating_mul_spec(x, y),
{
    match x.checked_mul(y) {
        Some(p) => p,
        None => u128::MAX,
    }
}

} // verus!
