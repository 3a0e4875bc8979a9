//! What holds of the module across calls: refused calls change nothing, a
//! validator votes once per target epoch, finalized checkpoints are
//! justified and stay finalized.
use crate::model::{value_or, CasperState};
use crate::types::{
    AccountId, Balance, BlockHash, Config, DispatchError, Dynasty, Epoch, Error, Event, Origin,
    RuntimeCall, Validator, ValidatorId,
};
use vstd::prelude::*;

verus! {

/// Every finalized checkpoint is justified.
pub open spec fn finalized_are_justified(s: CasperState) -> bool {
    forall|e: Epoch| #[trigger] s.checkpoint(e).is_finalized ==> s.checkpoint(e).is_justified
}

/// No checkpoint after the current epoch is justified.
pub open spec fn justified_not_ahead(s: CasperState) -> bool {
    forall|e: Epoch| #[trigger] s.checkpoint(e).is_justified ==> e <= s.current_epoch
}

/// The invariant of the module's checkpoints.
pub open spec fn checkpoints_consistent(s: CasperState) -> bool {
    finalized_are_justified(s) && justified_not_ahead(s)
}

/// Every checkpoint finalized in `s` is finalized in `t`.
pub open spec fn finality_kept(s: CasperState, t: CasperState) -> bool {
    forall|e: Epoch| #[trigger] s.checkpoint(e).is_finalized ==> t.checkpoint(e).is_finalized
}

/// The storage of a fresh chain satisfies the checkpoint invariant.
pub proof fn lemma_genesis_consistent(config: Config)
    ensures
        checkpoints_consistent(CasperState::genesis(config)),
{
}

/// Paying a reward touches no checkpoint.
proof fn lemma_rewarded_checkpoints(s: CasperState, id: ValidatorId)
    ensures
        s.rewarded(id).check_points_by_epoch == s.check_points_by_epoch,
        s.rewarded(id).current_epoch == s.current_epoch,
{
}

/// Storage with the same checkpoints and current epoch keeps the
/// invariant and the finality of every checkpoint.
proof fn lemma_same_checkpoints(s: CasperState, t: CasperState)
    requires
        t.check_points_by_epoch == s.check_points_by_epoch,
        t.current_epoch == s.current_epoch,
    ensures
        checkpoints_consistent(s) ==> checkpoints_consistent(t),
        finality_kept(s, t),
{
    assert forall|e: Epoch| #[trigger] t.checkpoint(e) == s.checkpoint(e) by {}
    assert forall|e: Epoch| #[trigger]
        s.checkpoint(e).is_finalized implies t.checkpoint(e).is_finalized by {
        assert(t.checkpoint(e) == s.checkpoint(e));
    }
    if checkpoints_consistent(s) {
        assert forall|e: Epoch| #[trigger]
            t.checkpoint(e).is_finalized implies t.checkpoint(e).is_justified by {
            assert(t.checkpoint(e) == s.checkpoint(e));
        }
        assert forall|e: Epoch| #[trigger]
            t.checkpoint(e).is_justified implies e <= t.current_epoch by {
            assert(t.checkpoint(e) == s.checkpoint(e));
        }
    }
}

/// A refused vote, logout, deposit or withdrawal changes no storage,
/// whatever the currency answered.
pub proof fn lemma_refused_calls_change_nothing(
    s: CasperState,
    origin: Origin,
    id: ValidatorId,
    source_epoch: Epoch,
    target_epoch: Epoch,
    target_hash: BlockHash,
    amount: Balance,
    end_dynasty: Dynasty,
    withdraw_address: AccountId,
    outcome: Result<(), DispatchError>,
    epoch: Epoch,
)
    ensures
        s.logout(origin, id, epoch).1 is Err ==> s.logout(origin, id, epoch).0 == s,
        s.vote(origin, id, source_epoch, target_epoch, target_hash).1 is Err ==> s.vote(
            origin,
            id,
            source_epoch,
            target_epoch,
            target_hash,
        ).0 == s,
        s.deposit(origin, amount, end_dynasty, withdraw_address, outcome).1 is Err ==> s.deposit(
            origin,
            amount,
            end_dynasty,
            withdraw_address,
            outcome,
        ).0 == s,
        s.withdraw(origin, id, outcome).1 is Err ==> s.withdraw(origin, id, outcome).0 == s,
{
}

/// Once a validator's vote for a target epoch is admitted, every further
/// vote of the same sender and validator for that target epoch is refused
/// with `SenderVotedBefore`, whatever its source epoch and hash, and
/// changes nothing.
pub proof fn lemma_vote_once_per_target(
    s: CasperState,
    who: AccountId,
    id: ValidatorId,
    source_epoch: Epoch,
    target_epoch: Epoch,
    target_hash: BlockHash,
    later_source_epoch: Epoch,
    later_hash: BlockHash,
)
    requires
        s.vote_check(who, id, source_epoch, target_epoch, target_hash) is Ok,
    ensures
        ({
            let t = s.vote(Origin::Signed(who), id, source_epoch, target_epoch, target_hash).0;
            t.vote(Origin::Signed(who), id, later_source_epoch, target_epoch, later_hash) == (
                t,
                Err::<crate::types::Event, DispatchError>(
                    DispatchError::Module(Error::SenderVotedBefore),
                ),
            )
        }),
{
    lemma_rewarded_checkpoints(s, id);
    let t = s.voted(id, source_epoch, target_epoch, target_hash);
    assert(t.checkpoint(target_epoch).vote_account_set.contains(id));
    assert(t.validator(id) is Some);
}

/// An admitted vote keeps the checkpoint invariant and every finalized
/// checkpoint finalized.
pub proof fn lemma_vote_keeps_checkpoints(
    s: CasperState,
    origin: Origin,
    id: ValidatorId,
    source_epoch: Epoch,
    target_epoch: Epoch,
    target_hash: BlockHash,
)
    requires
        checkpoints_consistent(s),
    ensures
        checkpoints_consistent(s.vote(origin, id, source_epoch, target_epoch, target_hash).0),
        finality_kept(s, s.vote(origin, id, source_epoch, target_epoch, target_hash).0),
{
    let t = s.vote(origin, id, source_epoch, target_epoch, target_hash).0;
    match origin {
        Origin::Signed(who) => {
            if s.vote_check(who, id, source_epoch, target_epoch, target_hash) is Ok {
                lemma_rewarded_checkpoints(s, id);
                let s1 = if s.expected_source_epoch == source_epoch {
                    s.rewarded(id)
                } else {
                    s
                };
                let s2 = if s.supermajority(id, source_epoch, target_epoch) && !s1.checkpoint(
                    target_epoch,
                ).is_justified {
                    s1.justified(source_epoch, target_epoch, target_hash)
                } else {
                    s1
                };
                assert(s1.check_points_by_epoch == s.check_points_by_epoch);
                assert(s.checkpoint(source_epoch).is_justified);
                assert(checkpoints_consistent(s2) && finality_kept(s, s2)) by {
                    assert forall|e: Epoch| #[trigger]
                        s2.checkpoint(e).is_finalized implies s2.checkpoint(e).is_justified by {
                        if e != source_epoch && e != target_epoch {
                            assert(s2.checkpoint(e) == s.checkpoint(e));
                        }
                    }
                    assert forall|e: Epoch| #[trigger]
                        s2.checkpoint(e).is_justified implies e <= s2.current_epoch by {
                        if e != source_epoch && e != target_epoch {
                            assert(s2.checkpoint(e) == s.checkpoint(e));
                        }
                    }
                    assert forall|e: Epoch| #[trigger]
                        s.checkpoint(e).is_finalized implies s2.checkpoint(e).is_finalized by {
                        if e != source_epoch && e != target_epoch {
                            assert(s2.checkpoint(e) == s.checkpoint(e));
                        }
                    }
                }
                assert forall|e: Epoch| #[trigger]
                    t.checkpoint(e).is_finalized implies t.checkpoint(e).is_justified by {
                    assert(t.checkpoint(e).is_finalized == s2.checkpoint(e).is_finalized);
                    assert(t.checkpoint(e).is_justified == s2.checkpoint(e).is_justified);
                }
                assert forall|e: Epoch| #[trigger]
                    t.checkpoint(e).is_justified implies e <= t.current_epoch by {
                    assert(t.checkpoint(e).is_justified == s2.checkpoint(e).is_justified);
                }
                assert forall|e: Epoch| #[trigger]
                    s.checkpoint(e).is_finalized implies t.checkpoint(e).is_finalized by {
                    assert(t.checkpoint(e).is_finalized == s2.checkpoint(e).is_finalized);
                }
            }
        },
        _ => {},
    }
}

/// A deposit keeps the checkpoint invariant and every finalized checkpoint
/// finalized, whatever the currency answered.
pub proof fn lemma_deposit_keeps_checkpoints(
    s: CasperState,
    origin: Origin,
    amount: Balance,
    end_dynasty: Dynasty,
    withdraw_address: AccountId,
    reserved: Result<(), DispatchError>,
)
    requires
        checkpoints_consistent(s),
    ensures
        checkpoints_consistent(s.deposit(origin, amount, end_dynasty, withdraw_address, reserved).0),
        finality_kept(s, s.deposit(origin, amount, end_dynasty, withdraw_address, reserved).0),
{
    lemma_same_checkpoints(s, s.deposit(origin, amount, end_dynasty, withdraw_address, reserved).0);
}

/// A withdrawal keeps the checkpoint invariant and every finalized
/// checkpoint finalized, whatever the currency answered.
pub proof fn lemma_withdraw_keeps_checkpoints(
    s: CasperState,
    origin: Origin,
    id: ValidatorId,
    paid: Result<(), DispatchError>,
)
    requires
        checkpoints_consistent(s),
    ensures
        checkpoints_consistent(s.withdraw(origin, id, paid).0),
        finality_kept(s, s.withdraw(origin, id, paid).0),
{
    lemma_same_checkpoints(s, s.withdraw(origin, id, paid).0);
}

/// Paying a reward keeps the checkpoint invariant and every finalized
/// checkpoint finalized.
pub proof fn lemma_reward_keeps_checkpoints(s: CasperState, id: ValidatorId)
    requires
        checkpoints_consistent(s),
    ensures
        checkpoints_consistent(s.rewarded(id)),
        finality_kept(s, s.rewarded(id)),
{
    lemma_rewarded_checkpoints(s, id);
    lemma_same_checkpoints(s, s.rewarded(id));
}

/// Starting an epoch keeps the checkpoint invariant, except when epoch 0
/// is started again from a later epoch.
pub proof fn lemma_start_epoch_keeps_checkpoints(
    s: CasperState,
    epoch: Epoch,
    epoch_hash: BlockHash,
    last_hash: BlockHash,
)
    requires
        checkpoints_consistent(s),
        s.current_epoch < u32::MAX,
        epoch == 0 ==> s.current_epoch == 0,
    ensures
        checkpoints_consistent(s.epoch_initialized(epoch, epoch_hash, last_hash)),
{
    let t = s.epoch_initialized(epoch, epoch_hash, last_hash);
    if s.starts_epoch(epoch) {
        let o = s.epoch_opened(epoch, epoch_hash, last_hash);
        assert(checkpoints_consistent(o)) by {
            assert forall|e: Epoch| #[trigger]
                o.checkpoint(e).is_finalized implies o.checkpoint(e).is_justified by {
                if e != epoch && !(epoch >= 1 && e == epoch - 1) {
                    assert(o.checkpoint(e) == s.checkpoint(e));
                }
            }
            assert forall|e: Epoch| #[trigger]
                o.checkpoint(e).is_justified implies e <= o.current_epoch by {
                if e != epoch && !(epoch >= 1 && e == epoch - 1) {
                    assert(o.checkpoint(e) == s.checkpoint(e));
                }
            }
        }
        assert(t.check_points_by_epoch == o.check_points_by_epoch);
        assert(t.current_epoch == o.current_epoch);
        assert forall|e: Epoch| #[trigger]
            t.checkpoint(e).is_finalized implies t.checkpoint(e).is_justified by {
            assert(t.checkpoint(e) == o.checkpoint(e));
        }
        assert forall|e: Epoch| #[trigger]
            t.checkpoint(e).is_justified implies e <= t.current_epoch by {
            assert(t.checkpoint(e) == o.checkpoint(e));
        }
    }
}

/// Under the checkpoint invariant, starting the epoch after the current one
/// keeps every finalized checkpoint finalized.
pub proof fn lemma_start_epoch_keeps_finality(
    s: CasperState,
    epoch: Epoch,
    epoch_hash: BlockHash,
    last_hash: BlockHash,
)
    requires
        checkpoints_consistent(s),
        s.current_epoch < u32::MAX,
        epoch != 0,
    ensures
        finality_kept(s, s.epoch_initialized(epoch, epoch_hash, last_hash)),
{
    let t = s.epoch_initialized(epoch, epoch_hash, last_hash);
    if s.starts_epoch(epoch) {
        let o = s.epoch_opened(epoch, epoch_hash, last_hash);
        assert(t.check_points_by_epoch == o.check_points_by_epoch);
        assert forall|e: Epoch| #[trigger]
            s.checkpoint(e).is_finalized implies t.checkpoint(e).is_finalized by {
            assert(s.checkpoint(e).is_justified);
            assert(e <= s.current_epoch);
            assert(e != epoch);
            assert(t.checkpoint(e) == o.checkpoint(e));
        }
    }
}

/// An admitted vote whose votes reach two thirds of the deposits of both
/// dynasties leaves the target epoch justified; where the target was not
/// justified before and follows the source, the source becomes finalized
/// and the last finalized epoch and hash are the source and the target
/// hash. Without two thirds, the vote justifies and finalizes nothing.
pub proof fn lemma_supermajority_justifies(
    s: CasperState,
    who: AccountId,
    id: ValidatorId,
    source_epoch: Epoch,
    target_epoch: Epoch,
    target_hash: BlockHash,
)
    requires
        s.vote_check(who, id, source_epoch, target_epoch, target_hash) is Ok,
    ensures
        ({
            let t = s.vote(Origin::Signed(who), id, source_epoch, target_epoch, target_hash).0;
            &&& s.supermajority(id, source_epoch, target_epoch) ==> t.checkpoint(target_epoch).is_justified
            &&& (s.supermajority(id, source_epoch, target_epoch) && !s.checkpoint(target_epoch).is_justified
                && target_epoch == source_epoch + 1) ==> {
                &&& t.checkpoint(source_epoch).is_finalized
                &&& t.last_finalized_epoch == source_epoch
                &&& t.last_finalized_hash == target_hash
                &&& t.last_justified_epoch == target_epoch
            }
            &&& !s.supermajority(id, source_epoch, target_epoch) ==> forall|e: Epoch|
                #![trigger t.checkpoint(e)]
                t.checkpoint(e).is_justified == s.checkpoint(e).is_justified
                    && t.checkpoint(e).is_finalized == s.checkpoint(e).is_finalized
        }),
{
    lemma_rewarded_checkpoints(s, id);
    let t = s.vote(Origin::Signed(who), id, source_epoch, target_epoch, target_hash).0;
    if !s.supermajority(id, source_epoch, target_epoch) {
        assert forall|e: Epoch| #![trigger t.checkpoint(e)]
            t.checkpoint(e).is_justified == s.checkpoint(e).is_justified
                && t.checkpoint(e).is_finalized == s.checkpoint(e).is_finalized by {
            if e != target_epoch {
                assert(t.checkpoint(e) == s.checkpoint(e));
            }
        }
    }
}

/// A logout keeps the checkpoint invariant and every finalized checkpoint
/// finalized.
pub proof fn lemma_logout_keeps_checkpoints(
    s: CasperState,
    origin: Origin,
    id: ValidatorId,
    epoch: Epoch,
)
    requires
        checkpoints_consistent(s),
    ensures
        checkpoints_consistent(s.logout(origin, id, epoch).0),
        finality_kept(s, s.logout(origin, id, epoch).0),
{
    lemma_same_checkpoints(s, s.logout(origin, id, epoch).0);
}

/// Finalizing the previous epoch at once a second time, with the same
/// hash, changes nothing more.
pub proof fn lemma_instant_finalize_idempotent(s: CasperState, last_hash: BlockHash)
    ensures
        s.instantly_finalized(last_hash).instantly_finalized(last_hash) == s.instantly_finalized(
            last_hash,
        ),
{
    let t = s.instantly_finalized(last_hash);
    if s.current_epoch >= 1 {
        let last = (s.current_epoch - 1) as Epoch;
        assert(t.checkpoint(last).is_justified && t.checkpoint(last).is_finalized);
        assert(t.check_points_by_epoch.insert(last, t.checkpoint(last))
            =~= t.check_points_by_epoch);
        assert(t.instantly_finalized(last_hash) =~= t);
    }
}

/// Starting an epoch never takes the last finalized epoch past the last
/// justified one.
pub proof fn lemma_start_epoch_finalized_not_past_justified(
    s: CasperState,
    epoch: Epoch,
    epoch_hash: BlockHash,
    last_hash: BlockHash,
)
    requires
        s.last_finalized_epoch <= s.last_justified_epoch,
    ensures
        s.epoch_initialized(epoch, epoch_hash, last_hash).last_finalized_epoch <= s.epoch_initialized(
            epoch,
            epoch_hash,
            last_hash,
        ).last_justified_epoch,
{
}

/// An admitted vote adds the voter's deposit to the counts of its own link
/// only (to the current dynasty's where the voter belongs to it, to the
/// previous dynasty's where it belonged to that one); the counts of every
/// other link stay as they were. With one vote per validator and target
/// epoch, a deposit enters a link's count at most once.
pub proof fn lemma_vote_counts_its_link_only(
    s: CasperState,
    who: AccountId,
    id: ValidatorId,
    source_epoch: Epoch,
    target_epoch: Epoch,
    target_hash: BlockHash,
)
    requires
        s.vote_check(who, id, source_epoch, target_epoch, target_hash) is Ok,
    ensures
        ({
            let t = s.vote(Origin::Signed(who), id, source_epoch, target_epoch, target_hash).0;
            let key = (target_epoch, source_epoch);
            let deposit = s.validator(id)->0.deposit;
            &&& t.current_dynasty_votes == s.current_dynasty_votes.insert(
                key,
                (value_or(s.current_dynasty_votes, key, 0) + if s.in_dynasty(
                    id,
                    s.current_dynasty,
                ) {
                    deposit
                } else {
                    0
                }) as Balance,
            )
            &&& t.pre_dynasty_votes == s.pre_dynasty_votes.insert(
                key,
                (value_or(s.pre_dynasty_votes, key, 0) + if s.current_dynasty > 0 && s.in_dynasty(
                    id,
                    (s.current_dynasty - 1) as Dynasty,
                ) {
                    deposit
                } else {
                    0
                }) as Balance,
            )
        }),
{
}

/// Only a link from an epoch to the next one finalizes: a vote whose target
/// epoch is not its source epoch plus one leaves the finality of every
/// checkpoint, the last finalized epoch and the last finalized hash as
/// they were, whether it is admitted or not.
pub proof fn lemma_only_consecutive_links_finalize(
    s: CasperState,
    origin: Origin,
    id: ValidatorId,
    source_epoch: Epoch,
    target_epoch: Epoch,
    target_hash: BlockHash,
)
    requires
        target_epoch != source_epoch + 1,
    ensures
        ({
            let t = s.vote(origin, id, source_epoch, target_epoch, target_hash).0;
            &&& t.last_finalized_epoch == s.last_finalized_epoch
            &&& t.last_finalized_hash == s.last_finalized_hash
            &&& forall|e: Epoch| #[trigger]
                t.checkpoint(e).is_finalized == s.checkpoint(e).is_finalized
        }),
{
    let t = s.vote(origin, id, source_epoch, target_epoch, target_hash).0;
    lemma_rewarded_checkpoints(s.votes_counted(id, source_epoch, target_epoch), id);
    assert forall|e: Epoch| #[trigger]
        t.checkpoint(e).is_finalized == s.checkpoint(e).is_finalized by {
        if e != target_epoch {
            assert(t.checkpoint(e) == s.checkpoint(e));
        }
    }
}

/// Starting an epoch advances the dynasty by one exactly when the
/// checkpoint two epochs before the new epoch is finalized; the previous
/// dynasty's total becomes the current one's and the new dynasty starts at
/// the new epoch. Otherwise the dynasty, both deposit totals and the start
/// epochs of the dynasties stay as they were.
pub proof fn lemma_dynasty_advances_on_finality(
    s: CasperState,
    epoch: Epoch,
    epoch_hash: BlockHash,
    last_hash: BlockHash,
)
    requires
        s.starts_epoch(epoch),
        s.current_dynasty < u32::MAX,
        0 <= s.total_cur_dyn_deposits + value_or(
            s.new_deposit_in_dynasty,
            (s.current_dynasty + 1) as Dynasty,
            0,
        ) - value_or(s.withdrawed_deposit_in_dynasty, (s.current_dynasty + 1) as Dynasty, 0)
            <= u128::MAX,
    ensures
        ({
            let t = s.epoch_initialized(epoch, epoch_hash, last_hash);
            let advances = epoch > 1 && s.checkpoint((epoch - 2) as Epoch).is_finalized;
            &&& advances ==> {
                &&& t.current_dynasty == s.current_dynasty + 1
                &&& t.total_pre_dyn_deposits == s.total_cur_dyn_deposits
                &&& t.dynasty_start_epoch == s.dynasty_start_epoch.insert(
                    (s.current_dynasty + 1) as Dynasty,
                    epoch,
                )
                &&& t.total_cur_dyn_deposits == s.total_cur_dyn_deposits + value_or(
                    s.new_deposit_in_dynasty,
                    (s.current_dynasty + 1) as Dynasty,
                    0,
                ) - value_or(s.withdrawed_deposit_in_dynasty, (s.current_dynasty + 1) as Dynasty, 0)
            }
            &&& !advances ==> {
                &&& t.current_dynasty == s.current_dynasty
                &&& t.total_cur_dyn_deposits == s.total_cur_dyn_deposits
                &&& t.total_pre_dyn_deposits == s.total_pre_dyn_deposits
                &&& t.dynasty_start_epoch == s.dynasty_start_epoch
            }
        }),
{
    let o = s.epoch_opened(epoch, epoch_hash, last_hash);
    if epoch > 1 {
        assert(o.checkpoint((epoch - 2) as Epoch) == s.checkpoint((epoch - 2) as Epoch));
    }
}

/// A registered validator whose end dynasty is over withdraws exactly when
/// the current epoch has reached the start epoch of the dynasty after its
/// end dynasty plus the withdraw delay, whatever the start epochs of later
/// dynasties. Before that the call is refused with
/// `EpochNotReachedForWithdraw` and changes nothing; from then on the
/// deposit is unreserved and the reward paid, both to the withdraw account,
/// and where the payment succeeds the validator and its account entry are
/// removed.
pub proof fn lemma_withdraw_waits_from_next_dynasty(
    s: CasperState,
    who: AccountId,
    id: ValidatorId,
    rest: Balance,
    paid: Result<(), DispatchError>,
)
    requires
        s.validator_by_id.contains_key(id),
        s.current_dynasty > s.validator_by_id[id].end_dynasty,
    ensures
        ({
            let v = s.validator_by_id[id];
            let ready = s.current_epoch >= value_or(
                s.dynasty_start_epoch,
                (v.end_dynasty + 1) as Dynasty,
                0,
            ) + s.config.withdraw_delay;
            let (t, r) = s.withdraw(Origin::Signed(who), id, paid);
            &&& !ready ==> {
                &&& r == Err::<Event, DispatchError>(
                    DispatchError::Module(Error::EpochNotReachedForWithdraw),
                )
                &&& t == s
                &&& s.withdraw_requests(Origin::Signed(who), id, rest, paid)
                    == Seq::<RuntimeCall>::empty()
            }
            &&& ready ==> s.withdraw_requests(Origin::Signed(who), id, rest, paid) == seq![
                RuntimeCall::Unreserve(v.withdraw_address, v.deposit, rest),
                RuntimeCall::DepositIntoExisting(v.withdraw_address, v.reward, paid),
            ]
            &&& (ready && paid is Ok) ==> {
                &&& r == Ok::<Event, DispatchError>(Event::Withdraw(id))
                &&& !t.validator_by_id.contains_key(id)
                &&& !t.validator_id_by_account.contains_key(v.withdraw_address)
            }
            &&& (ready && paid is Err) ==> (t == s && r == Err::<Event, DispatchError>(
                paid->Err_0,
            ))
        }),
{
}

/// A signed deposit whose withdraw address belongs to no validator and
/// whose amount reaches the minimum asks the currency to reserve the amount
/// from the signer, whether or not the withdraw address is the signer's own
/// account. Where the currency reserves it, the validator is registered
/// under the next id with that deposit, no reward, the dynasty two after
/// the current one as start, the given end dynasty, the signer as address
/// and the given withdraw address, which now maps to the new id; where the
/// currency refuses, its error comes back and nothing changes.
pub proof fn lemma_deposit_registers(
    s: CasperState,
    who: AccountId,
    amount: Balance,
    end_dynasty: Dynasty,
    withdraw_address: AccountId,
    reserved: Result<(), DispatchError>,
)
    requires
        value_or(s.validator_id_by_account, withdraw_address, 0) == 0,
        amount >= s.config.min_deposit,
        s.next_validator_id < u128::MAX,
        s.current_dynasty + 2 <= u32::MAX,
    ensures
        s.deposit_requests(Origin::Signed(who), amount, withdraw_address, reserved) == seq![
            RuntimeCall::Reserve(who, amount, reserved),
        ],
        ({
            let (t, r) = s.deposit(
                Origin::Signed(who),
                amount,
                end_dynasty,
                withdraw_address,
                reserved,
            );
            let id = (s.next_validator_id + 1) as ValidatorId;
            &&& reserved is Ok ==> {
                &&& r == Ok::<Event, DispatchError>(
                    Event::Deposit(who, withdraw_address, end_dynasty),
                )
                &&& t.next_validator_id == s.next_validator_id + 1
                &&& t.validator_by_id.contains_key(id)
                &&& t.validator_by_id[id] == Validator {
                    deposit: amount,
                    reward: 0,
                    start_dynasty: (s.current_dynasty + 2) as Dynasty,
                    end_dynasty,
                    address: who,
                    withdraw_address,
                }
                &&& value_or(t.validator_id_by_account, withdraw_address, 0) == id
            }
            &&& reserved is Err ==> (t == s && r == Err::<Event, DispatchError>(
                reserved->Err_0,
            ))
        }),
{
}

/// An admitted logout sets the validator's end dynasty to the current
/// dynasty plus the logout delay, keeps every other field of the validator
/// and every other validator, and reports the logout.
pub proof fn lemma_logout_sets_end_dynasty(
    s: CasperState,
    who: AccountId,
    id: ValidatorId,
    epoch: Epoch,
)
    requires
        s.validator_by_id.contains_key(id),
        s.validator_by_id[id].withdraw_address == who,
        s.current_epoch >= epoch,
        s.validator_by_id[id].end_dynasty >= s.current_dynasty + s.config.logout_delay,
    ensures
        ({
            let v = s.validator_by_id[id];
            let (t, r) = s.logout(Origin::Signed(who), id, epoch);
            &&& r == Ok::<Event, DispatchError>(Event::Logout(id, epoch))
            &&& t.validator_by_id == s.validator_by_id.insert(
                id,
                Validator {
                    deposit: v.deposit,
                    reward: v.reward,
                    start_dynasty: v.start_dynasty,
                    end_dynasty: (s.current_dynasty + s.config.logout_delay) as Dynasty,
                    address: v.address,
                    withdraw_address: v.withdraw_address,
                },
            )
            &&& t.validator_by_id[id].end_dynasty == s.current_dynasty + s.config.logout_delay
        }),
{
}

/// `x * y`, or the largest `u128` where the product does not fit, as the
/// two-thirds comparison computes it.
pub open spec fn capped_product(x: int, y: int) -> int {
    if x * y > u128::MAX {
        u128::MAX as int
    } else {
        x * y
    }
}

/// Whether `dynasty` lies in the validator's `[start_dynasty, end_dynasty)`.
pub open spec fn serves_in(v: Validator, dynasty: int) -> bool {
    v.start_dynasty <= dynasty && dynasty < v.end_dynasty
}

/// A vote signed by `who` for validator `id` is admitted exactly when the
/// target is the current epoch, `who` is the validator's address, the
/// validator has not voted for the target yet, the hash is the recommended
/// target hash, the validator serves in the current dynasty or the previous
/// one, and the source epoch is justified.
pub proof fn lemma_vote_admission(
    s: CasperState,
    who: AccountId,
    id: ValidatorId,
    source_epoch: Epoch,
    target_epoch: Epoch,
    target_hash: BlockHash,
)
    ensures
        s.vote(Origin::Signed(who), id, source_epoch, target_epoch, target_hash).1 is Ok <==> {
            &&& target_epoch == s.current_epoch
            &&& s.validator_by_id.contains_key(id)
            &&& s.validator_by_id[id].address == who
            &&& !s.checkpoint(target_epoch).vote_account_set.contains(id)
            &&& target_hash == s.recommended_target_hash
            &&& (serves_in(s.validator_by_id[id], s.current_dynasty as int) || (s.current_dynasty
                > 0 && serves_in(s.validator_by_id[id], s.current_dynasty - 1)))
            &&& s.checkpoint(source_epoch).is_justified
        },
{
}

/// What an admitted vote does: the validator's deposit is added to the
/// counts of the link in each dynasty it serves in (the current one, and
/// the previous one); the validator joins the target's voters; the target
/// is justified afterwards exactly when it was before or the counts reach
/// two thirds of both dynasties' deposits; a target newly justified becomes
/// the last justified epoch and, where it follows the source, finalizes the
/// source with the target hash as last finalized hash; a vote on the
/// expected source epoch adds deposit * reward_factor / reward_rate_base to
/// the validator's reward, and any other vote leaves the reward as it was.
pub proof fn lemma_vote_effect(
    s: CasperState,
    who: AccountId,
    id: ValidatorId,
    source_epoch: Epoch,
    target_epoch: Epoch,
    target_hash: BlockHash,
)
    requires
        s.vote(Origin::Signed(who), id, source_epoch, target_epoch, target_hash).1 is Ok,
        s.vote_defined(Origin::Signed(who), id, source_epoch, target_epoch, target_hash),
    ensures
        ({
            let v = s.validator_by_id[id];
            let key = (target_epoch, source_epoch);
            let cur = value_or(s.current_dynasty_votes, key, 0) + if serves_in(
                v,
                s.current_dynasty as int,
            ) {
                v.deposit as int
            } else {
                0
            };
            let prev = value_or(s.pre_dynasty_votes, key, 0) + if s.current_dynasty > 0
                && serves_in(v, s.current_dynasty - 1) {
                v.deposit as int
            } else {
                0
            };
            let reached = capped_product(cur, 3) >= capped_product(
                s.total_cur_dyn_deposits as int,
                2,
            ) && capped_product(prev, 3) >= capped_product(s.total_pre_dyn_deposits as int, 2);
            let newly = reached && !s.checkpoint(target_epoch).is_justified;
            let t = s.vote(Origin::Signed(who), id, source_epoch, target_epoch, target_hash).0;
            &&& value_or(t.current_dynasty_votes, key, 0) == cur
            &&& value_or(t.pre_dynasty_votes, key, 0) == prev
            &&& t.checkpoint(target_epoch).vote_account_set == s.checkpoint(
                target_epoch,
            ).vote_account_set.insert(id)
            &&& t.checkpoint(target_epoch).is_justified == (s.checkpoint(target_epoch).is_justified
                || reached)
            &&& newly ==> t.last_justified_epoch == target_epoch && t.main_hash_justified
            &&& (newly && target_epoch == source_epoch + 1) ==> {
                &&& t.checkpoint(source_epoch).is_finalized
                &&& t.last_finalized_epoch == source_epoch
                &&& t.last_finalized_hash == target_hash
            }
            &&& t.validator_by_id.contains_key(id)
            &&& t.validator_by_id[id].deposit == v.deposit
            &&& t.validator_by_id[id].reward == v.reward + if s.expected_source_epoch
                == source_epoch {
                v.deposit * s.config.reward_factor / (s.config.reward_rate_base as int)
            } else {
                0
            }
        }),
{
    let s0 = s.votes_counted(id, source_epoch, target_epoch);
    lemma_rewarded_checkpoints(s0, id);
}

/// Paying a reward adds deposit * reward_factor / reward_rate_base to the
/// validator's reward and changes nothing else of any validator.
pub proof fn lemma_reward_formula(s: CasperState, id: ValidatorId)
    requires
        s.validator_by_id.contains_key(id),
    ensures
        ({
            let v = s.validator_by_id[id];
            s.rewarded(id).validator_by_id == s.validator_by_id.insert(
                id,
                Validator {
                    reward: (v.reward + v.deposit * s.config.reward_factor / (
                    s.config.reward_rate_base as int)) as Balance,
                    ..v
                },
            )
        }),
{
}

/// Starting an epoch makes it the current epoch with a fresh checkpoint
/// holding the two dynasties' deposit totals from before, no voters and
/// neither justified nor finalized. Where a dynasty holds no deposit and
/// the epoch is not 0, the previous epoch becomes justified and finalized
/// at once, with the previous epoch's first block hash as last finalized
/// hash. The hash of the epoch's first block is recorded for the dynasty
/// current before the start, the previous epoch's first block hash becomes
/// the target to vote on, and the expected source epoch becomes the
/// previous epoch where the epoch before was justified.
pub proof fn lemma_epoch_start_effect(
    s: CasperState,
    epoch: Epoch,
    epoch_hash: BlockHash,
    last_hash: BlockHash,
)
    requires
        s.starts_epoch(epoch),
        s.main_hash_justified ==> epoch >= 1,
    ensures
        ({
            let t = s.epoch_initialized(epoch, epoch_hash, last_hash);
            let instant = !(s.total_cur_dyn_deposits > 0 && s.total_pre_dyn_deposits > 0) && epoch
                >= 1;
            &&& t.current_epoch == epoch
            &&& t.checkpoint(epoch).cur_dyn_deposits == s.total_cur_dyn_deposits
            &&& t.checkpoint(epoch).prev_dyn_deposits == s.total_pre_dyn_deposits
            &&& t.checkpoint(epoch).vote_account_set == Set::<ValidatorId>::empty()
            &&& !t.checkpoint(epoch).is_justified && !t.checkpoint(epoch).is_finalized
            &&& instant ==> {
                &&& t.checkpoint((epoch - 1) as Epoch).is_justified
                &&& t.checkpoint((epoch - 1) as Epoch).is_finalized
                &&& t.last_finalized_epoch == epoch - 1
                &&& t.last_justified_epoch == epoch - 1
                &&& t.last_finalized_hash == last_hash
            }
            &&& !instant ==> {
                &&& t.last_finalized_epoch == s.last_finalized_epoch
                &&& t.last_justified_epoch == s.last_justified_epoch
                &&& t.last_finalized_hash == s.last_finalized_hash
            }
            &&& value_or(t.check_point_hash, s.current_dynasty, BlockHash::zero_spec())
                == epoch_hash
            &&& epoch != 0 ==> t.recommended_target_hash == last_hash
            &&& epoch == 0 ==> t.recommended_target_hash == s.recommended_target_hash
            &&& (s.main_hash_justified || instant) ==> t.expected_source_epoch == epoch - 1
            &&& !(s.main_hash_justified || instant) ==> t.expected_source_epoch
                == s.expected_source_epoch
            &&& !t.main_hash_justified
        }),
{
    let o = s.epoch_opened(epoch, epoch_hash, last_hash);
    assert(o.checkpoint(epoch) == s.epoch_initialized(epoch, epoch_hash, last_hash).checkpoint(
        epoch,
    ));
}

/// An unsigned call is refused with `BadOrigin`, and each module error of
/// a deposit, a logout and a withdrawal comes exactly on its inputs, with
/// the storage unchanged and nothing asked of the currency: a withdraw
/// address already mapped to a validator, an amount under the minimum; an
/// epoch not reached yet, an unknown validator, a signer other than the
/// withdraw account, an end dynasty before the current dynasty plus the
/// logout delay; an unknown validator, an end dynasty not over yet.
pub proof fn lemma_refusals(
    s: CasperState,
    who: AccountId,
    id: ValidatorId,
    epoch: Epoch,
    amount: Balance,
    end_dynasty: Dynasty,
    withdraw_address: AccountId,
    outcome: Result<(), DispatchError>,
    rest: Balance,
)
    ensures
        s.deposit(Origin::Root, amount, end_dynasty, withdraw_address, outcome) == (
            s,
            Err::<Event, DispatchError>(DispatchError::BadOrigin),
        ),
        s.logout(Origin::Unsigned, id, epoch) == (
            s,
            Err::<Event, DispatchError>(DispatchError::BadOrigin),
        ),
        s.withdraw(Origin::Unsigned, id, outcome) == (
            s,
            Err::<Event, DispatchError>(DispatchError::BadOrigin),
        ),
        value_or(s.validator_id_by_account, withdraw_address, 0) != 0 ==> {
            &&& s.deposit(Origin::Signed(who), amount, end_dynasty, withdraw_address, outcome) == (
                s,
                Err::<Event, DispatchError>(DispatchError::Module(Error::ValidatorIdNotValid)),
            )
            &&& s.deposit_requests(Origin::Signed(who), amount, withdraw_address, outcome)
                == Seq::<RuntimeCall>::empty()
        },
        (value_or(s.validator_id_by_account, withdraw_address, 0) == 0 && amount
            < s.config.min_deposit) ==> {
            &&& s.deposit(Origin::Signed(who), amount, end_dynasty, withdraw_address, outcome) == (
                s,
                Err::<Event, DispatchError>(DispatchError::Module(Error::DepositLessThanMinimum)),
            )
            &&& s.deposit_requests(Origin::Signed(who), amount, withdraw_address, outcome)
                == Seq::<RuntimeCall>::empty()
        },
        s.current_epoch < epoch ==> s.logout(Origin::Signed(who), id, epoch) == (
            s,
            Err::<Event, DispatchError>(DispatchError::Module(Error::EpochNotReachedForLogout)),
        ),
        (s.current_epoch >= epoch && !s.validator_by_id.contains_key(id)) ==> s.logout(
            Origin::Signed(who),
            id,
            epoch,
        ) == (s, Err::<Event, DispatchError>(DispatchError::Module(Error::ValidatorNotRegistered))),
        (s.current_epoch >= epoch && s.validator_by_id.contains_key(id)
            && s.validator_by_id[id].withdraw_address != who) ==> s.logout(
            Origin::Signed(who),
            id,
            epoch,
        ) == (
            s,
            Err::<Event, DispatchError>(DispatchError::Module(Error::OnlyWithdrawAccountCanLogout)),
        ),
        (s.current_epoch >= epoch && s.validator_by_id.contains_key(id)
            && s.validator_by_id[id].withdraw_address == who && s.validator_by_id[id].end_dynasty
            < s.current_dynasty + s.config.logout_delay) ==> s.logout(Origin::Signed(who), id, epoch)
            == (
            s,
            Err::<Event, DispatchError>(DispatchError::Module(Error::DynastyNotReachedForLogout)),
        ),
        !s.validator_by_id.contains_key(id) ==> {
            &&& s.withdraw(Origin::Signed(who), id, outcome) == (
                s,
                Err::<Event, DispatchError>(DispatchError::Module(Error::ValidatorNotRegistered)),
            )
            &&& s.withdraw_requests(Origin::Signed(who), id, rest, outcome)
                == Seq::<RuntimeCall>::empty()
        },
        (s.validator_by_id.contains_key(id) && s.current_dynasty
            <= s.validator_by_id[id].end_dynasty) ==> {
            &&& s.withdraw(Origin::Signed(who), id, outcome) == (
                s,
                Err::<Event, DispatchError>(
                    DispatchError::Module(Error::DynastyNotReachedForWithdraw),
                ),
            )
            &&& s.withdraw_requests(Origin::Signed(who), id, rest, outcome)
                == Seq::<RuntimeCall>::empty()
        },
{
}

} // verus!
