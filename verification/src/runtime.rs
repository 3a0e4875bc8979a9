//! The runtime the module talks to, and the record of what it asked.
//! Only the methods of `Runtime` make requests and write the record, so a
//! caller's contract over the record fixes what was asked and answered.
use crate::types::{AccountId, Balance, BlockHash, BlockNumber, DispatchError, RuntimeCall};
use vstd::prelude::*;

verus! {

/// What the runtime provides to the module: its currency and the hashes of
/// past blocks. The runtime implements it; nothing is assumed of what the
/// methods answer.
pub trait Trait {
    /// Moves `amount` of `who`'s free balance to its reserved balance.
    fn reserve(&mut self, who: AccountId, amount: Balance) -> Result<(), DispatchError>;

    /// Moves up to `amount` of `who`'s reserved balance back to its free
    /// balance, and gives back the part that could not be moved.
    fn unreserve(&mut self, who: AccountId, amount: Balance) -> Balance;

    /// Adds `amount` to the free balance of the existing account `who`.
    fn deposit_into_existing(&mut self, who: AccountId, amount: Balance) -> Result<
        (),
        DispatchError,
    >;

    /// The hash of block `number`.
    fn block_hash(&self, number: BlockNumber) -> BlockHash;
}

/// The runtime, with a record of the requests the module made to it, in
/// order, each with the answer it got.
pub struct Runtime<T: Trait> {
    inner: T,
    calls: Ghost<Seq<RuntimeCall>>,
}

impl<T: Trait> Runtime<T> {
    /// The requests made to the runtime so far, with their answers.
    pub closed spec fn calls(&self) -> Seq<RuntimeCall> {
        self.calls@
    }

    /// The runtime itself, to read; requests go through the methods below,
    /// which record them.
    pub fn inner(&self) -> &T {
        &self.inner
    }

    /// Gives the runtime back.
    pub fn into_inner(self) -> T {
        self.inner
    }

    /// The runtime `inner`, with no request made yet.
    pub fn new(inner: T) -> (r: Runtime<T>)
        ensures
            r.calls() == Seq::<RuntimeCall>::empty(),
    {
        Runtime { inner, calls: Ghost(Seq::empty()) }
    }

    /// Asks the currency to reserve `amount` of `who`'s balance.
    pub fn reserve(&mut self, who: AccountId, amount: Balance) -> (r: Result<(), DispatchError>)
        ensures
            final(self).calls() == old(self).calls().push(RuntimeCall::Reserve(who, amount, r)),
    {
        let r = self.inner.reserve(who, amount);
        self.calls = Ghost(self.calls@.push(RuntimeCall::Reserve(who, amount, r)));
        r
    }

    /// Asks the currency to unreserve `amount` of `who`'s balance.
    pub fn unreserve(&mut self, who: AccountId, amount: Balance) -> (rest: Balance)
        ensures
            final(self).calls() == old(self).calls().push(RuntimeCall::Unreserve(who, amount, rest)),
    {
        let rest = self.inner.unreserve(who, amount);
        self.calls = Ghost(self.calls@.push(RuntimeCall::Unreserve(who, amount, rest)));
        rest
    }

    /// Asks the currency to add `amount` to `who`'s free balance.
    pub fn deposit_into_existing(&mut self, who: AccountId, amount: Balance) -> (r: Result<
        (),
        DispatchError,
    >)
        ensures
            final(self).calls() == old(self).calls().push(
                RuntimeCall::DepositIntoExisting(who, amount, r),
            ),
    {
        let r = self.inner.deposit_into_existing(who, amount);
        self.calls = Ghost(self.calls@.push(RuntimeCall::DepositIntoExisting(who, amount, r)));
        r
    }

    /// Reads the hash of block `number`.
    pub fn block_hash(&mut self, number: BlockNumber) -> (h: BlockHash)
        ensures
            final(self).calls() == old(self).calls().push(RuntimeCall::BlockHash(number, h)),
    {
        let h = self.inner.block_hash(number);
        self.calls = Ghost(self.calls@.push(RuntimeCall::BlockHash(number, h)));
        h
    }
}

} // verus!
