use casper::pallet::Module;
use casper::runtime::{Runtime, Trait};
use casper::types::{
    ensure_signed, saturating_mul, AccountId, Balance, BlockHash, BlockNumber, CheckPoints, Config,
    DispatchError, Error, Event, Origin, Validator,
};

/// A runtime whose currency records what it was asked and refuses on demand.
struct MockRuntime {
    reserved: Vec<(AccountId, Balance)>,
    unreserved: Vec<(AccountId, Balance)>,
    paid: Vec<(AccountId, Balance)>,
    refuse_reserve: bool,
    refuse_payment: bool,
}

impl MockRuntime {
    fn new() -> MockRuntime {
        MockRuntime {
            reserved: Vec::new(),
            unreserved: Vec::new(),
            paid: Vec::new(),
            refuse_reserve: false,
            refuse_payment: false,
        }
    }
}

/// The same runtime, refusing to reserve or to pay as given.
fn set_refusals(rt: Runtime<MockRuntime>, reserve: bool, payment: bool) -> Runtime<MockRuntime> {
    let mut mock = rt.into_inner();
    mock.refuse_reserve = reserve;
    mock.refuse_payment = payment;
    Runtime::new(mock)
}

fn hash_of(n: BlockNumber) -> BlockHash {
    BlockHash { high: n as u128, low: 0xabcd }
}

impl Trait for MockRuntime {
    fn reserve(&mut self, who: AccountId, amount: Balance) -> Result<(), DispatchError> {
        if self.refuse_reserve {
            return Err(DispatchError::Currency(1));
        }
        self.reserved.push((who, amount));
        Ok(())
    }

    fn unreserve(&mut self, who: AccountId, amount: Balance) -> Balance {
        self.unreserved.push((who, amount));
        0
    }

    fn deposit_into_existing(&mut self, who: AccountId, amount: Balance) -> Result<(), DispatchError> {
        if self.refuse_payment {
            return Err(DispatchError::Currency(2));
        }
        self.paid.push((who, amount));
        Ok(())
    }

    fn block_hash(&self, number: BlockNumber) -> BlockHash {
        hash_of(number)
    }
}

fn config() -> Config {
    Config {
        reward_factor: 1,
        reward_rate_base: 10_000,
        epoch_length: 10,
        withdraw_delay: 10,
        logout_delay: 2,
        min_deposit: 1_000,
    }
}

const ALICE: AccountId = 1;
const ALICE_STASH: AccountId = 11;
const BOB: AccountId = 2;
const BOB_STASH: AccountId = 22;

/// Runs the first block of each epoch up to `epoch`.
fn run_to_epoch(m: &mut Module, rt: &mut Runtime<MockRuntime>, epoch: u32) {
    let length = m.config().epoch_length;
    for e in 0..=epoch {
        if e < m.current_epoch() || (e == m.current_epoch() && e != 0) {
            continue;
        }
        m.on_initialize(rt, e * length + 1);
    }
}

fn module_err(e: Error) -> Result<Event, DispatchError> {
    Err(DispatchError::Module(e))
}

#[test]
fn genesis_is_empty() {
    let m = Module::new(config());
    assert_eq!(m.current_epoch(), 0);
    assert_eq!(m.current_dynasty(), 0);
    assert_eq!(m.next_validator_id(), 0);
    assert_eq!(m.validator_by_id(1), None);
    assert_eq!(m.validator_id_by_account(ALICE), 0);
    assert_eq!(m.recommended_target_hash(), BlockHash::zero());
    assert!(!m.deposit_exists());
    let c = m.check_points_by_epoch(0);
    assert!(!c.is_justified && !c.is_finalized);
    assert!(c.vote_account_set.is_empty());
}

#[test]
fn ensure_signed_takes_the_signer() {
    assert_eq!(ensure_signed(Origin::Signed(5)), Ok(5));
    assert_eq!(ensure_signed(Origin::Root), Err(DispatchError::BadOrigin));
    assert_eq!(ensure_signed(Origin::Unsigned), Err(DispatchError::BadOrigin));
}

#[test]
fn saturating_mul_stops_at_max() {
    assert_eq!(saturating_mul(7, 6), 42);
    assert_eq!(saturating_mul(u128::MAX, 2), u128::MAX);
    assert_eq!(saturating_mul(u128::MAX / 2, 2), u128::MAX - 1);
}

#[test]
fn checkpoint_new_and_duplicate() {
    let mut c = CheckPoints::new(5, 6);
    c.vote_account_set.insert(9);
    let d = c.duplicate();
    assert_eq!(d.cur_dyn_deposits, 5);
    assert_eq!(d.prev_dyn_deposits, 6);
    assert!(d.has_voted(9));
    assert!(!d.has_voted(8));
    let e = CheckPoints::default();
    assert_eq!(e.cur_dyn_deposits, 0);
    assert!(!e.has_voted(9));
}

#[test]
fn deposit_registers_a_validator() {
    let mut m = Module::new(config());
    let mut rt = Runtime::new(MockRuntime::new());
    let r = m.deposit(&mut rt, Origin::Signed(ALICE), 5_000, 100, ALICE_STASH);
    assert_eq!(r, Ok(Event::Deposit(ALICE, ALICE_STASH, 100)));
    assert_eq!(rt.inner().reserved, vec![(ALICE, 5_000)]);
    assert_eq!(m.next_validator_id(), 1);
    assert_eq!(m.validator_id_by_account(ALICE_STASH), 1);
    assert_eq!(
        m.validator_by_id(1),
        Some(Validator {
            deposit: 5_000,
            reward: 0,
            start_dynasty: 2,
            end_dynasty: 100,
            address: ALICE,
            withdraw_address: ALICE_STASH,
        })
    );
    assert_eq!(m.new_deposit_in_dynasty(2), 5_000);
    // A second validator gets the next id and adds to the same dynasty.
    let r = m.deposit(&mut rt, Origin::Signed(BOB), 3_000, 50, BOB_STASH);
    assert_eq!(r, Ok(Event::Deposit(BOB, BOB_STASH, 50)));
    assert_eq!(m.validator_id_by_account(BOB_STASH), 2);
    assert_eq!(m.new_deposit_in_dynasty(2), 8_000);
}

#[test]
fn deposit_refusals_change_nothing() {
    let mut m = Module::new(config());
    let mut rt = Runtime::new(MockRuntime::new());
    assert_eq!(
        m.deposit(&mut rt, Origin::Root, 5_000, 100, ALICE_STASH),
        Err(DispatchError::BadOrigin)
    );
    assert_eq!(
        m.deposit(&mut rt, Origin::Signed(ALICE), 999, 100, ALICE_STASH),
        module_err(Error::DepositLessThanMinimum)
    );
    rt = set_refusals(rt, true, false);
    assert_eq!(
        m.deposit(&mut rt, Origin::Signed(ALICE), 5_000, 100, ALICE_STASH),
        Err(DispatchError::Currency(1))
    );
    assert_eq!(m.next_validator_id(), 0);
    assert_eq!(m.validator_by_id(1), None);
    assert_eq!(m.new_deposit_in_dynasty(2), 0);
    rt = set_refusals(rt, false, false);
    assert!(m.deposit(&mut rt, Origin::Signed(ALICE), 5_000, 100, ALICE_STASH).is_ok());
    // The withdraw address is taken now.
    assert_eq!(
        m.deposit(&mut rt, Origin::Signed(BOB), 5_000, 100, ALICE_STASH),
        module_err(Error::ValidatorIdNotValid)
    );
    assert_eq!(m.next_validator_id(), 1);
}

#[test]
fn proc_reward_adds_the_interest() {
    let mut m = Module::new(config());
    let mut rt = Runtime::new(MockRuntime::new());
    m.deposit(&mut rt, Origin::Signed(ALICE), 1_000_000, 100, ALICE_STASH).unwrap();
    m.proc_reward(1);
    assert_eq!(m.validator_by_id(1).unwrap().reward, 100);
    m.proc_reward(1);
    assert_eq!(m.validator_by_id(1).unwrap().reward, 200);
    // Integer division after the product: 19_999 * 1 / 10_000 = 1.
    m.deposit(&mut rt, Origin::Signed(BOB), 19_999, 100, BOB_STASH).unwrap();
    m.proc_reward(2);
    assert_eq!(m.validator_by_id(2).unwrap().reward, 1);
    // An unknown validator is ignored.
    m.proc_reward(7);
    assert_eq!(m.validator_by_id(7), None);
}


#[test]
fn in_dynasty_is_half_open() {
    let mut m = Module::new(config());
    let mut rt = Runtime::new(MockRuntime::new());
    m.deposit(&mut rt, Origin::Signed(ALICE), 5_000, 4, ALICE_STASH).unwrap();
    assert!(!m.in_dynasty(1, 1));
    assert!(m.in_dynasty(1, 2));
    assert!(m.in_dynasty(1, 3));
    assert!(!m.in_dynasty(1, 4));
    assert!(!m.in_dynasty(9, 2));
}

#[test]
fn epoch_start_blocks() {
    let m = Module::new(config());
    assert_eq!(m.epoch_started_at(1), Some(0));
    assert_eq!(m.epoch_started_at(21), Some(2));
    assert_eq!(m.epoch_started_at(20), None);
    assert_eq!(m.epoch_started_at(25), None);
}

#[test]
fn epochs_without_deposits_finalize_at_once() {
    let mut m = Module::new(config());
    let mut rt = Runtime::new(MockRuntime::new());
    // Block 1 starts epoch 0.
    assert_eq!(m.on_initialize(&mut rt, 1), 0);
    assert_eq!(m.current_epoch(), 0);
    assert_eq!(m.check_point_hash(0), hash_of(0));
    assert!(!m.check_points_by_epoch(0).is_finalized);
    // Other blocks do nothing.
    assert_eq!(m.on_initialize(&mut rt, 5), 0);
    assert_eq!(m.current_epoch(), 0);
    // Block 11 starts epoch 1 and finalizes epoch 0.
    m.on_initialize(&mut rt, 11);
    assert_eq!(m.current_epoch(), 1);
    let c0 = m.check_points_by_epoch(0);
    assert!(c0.is_justified && c0.is_finalized);
    assert_eq!(m.last_finalized_epoch(), 0);
    assert_eq!(m.last_justified_epoch(), 0);
    assert_eq!(m.last_finalized_hash(), hash_of(0));
    assert_eq!(m.recommended_target_hash(), hash_of(0));
    assert_eq!(m.expected_source_epoch(), 0);
    assert!(!m.main_hash_justified());
    assert_eq!(m.current_dynasty(), 0);
    assert_eq!(m.dynasty_in_epoch(1), 0);
    // Block 21 starts epoch 2: epoch 0 is finalized, so the dynasty advances.
    m.on_initialize(&mut rt, 21);
    assert_eq!(m.current_epoch(), 2);
    assert_eq!(m.current_dynasty(), 1);
    assert_eq!(m.dynasty_start_epoch(1), 2);
    assert_eq!(m.dynasty_in_epoch(2), 1);
    assert_eq!(m.expected_source_epoch(), 1);
    assert_eq!(m.recommended_target_hash(), hash_of(10));
    // The hash is recorded under the dynasty before it advanced.
    assert_eq!(m.check_point_hash(0), hash_of(20));
    assert_eq!(m.check_point_hash(1), BlockHash::zero());
}

#[test]
fn initialize_epoch_skips_other_epochs() {
    let mut m = Module::new(config());
    let mut rt = Runtime::new(MockRuntime::new());
    m.initialize_epoch(&mut rt, 0);
    m.initialize_epoch(&mut rt, 1);
    assert_eq!(m.current_epoch(), 1);
    // Epoch 3 does not follow epoch 1.
    m.initialize_epoch(&mut rt, 3);
    assert_eq!(m.current_epoch(), 1);
    m.start_epoch(2, hash_of(20), hash_of(10));
    assert_eq!(m.current_epoch(), 2);
    assert_eq!(m.recommended_target_hash(), hash_of(10));
}

#[test]
fn deposits_enter_the_totals_two_dynasties_later() {
    let mut m = Module::new(config());
    let mut rt = Runtime::new(MockRuntime::new());
    m.deposit(&mut rt, Origin::Signed(ALICE), 6_000, 100, ALICE_STASH).unwrap();
    run_to_epoch(&mut m, &mut rt, 3);
    assert_eq!(m.current_dynasty(), 2);
    assert_eq!(m.total_cur_dyn_deposits(), 6_000);
    assert_eq!(m.total_pre_dyn_deposits(), 0);
    run_to_epoch(&mut m, &mut rt, 4);
    assert_eq!(m.current_dynasty(), 3);
    assert_eq!(m.total_cur_dyn_deposits(), 6_000);
    assert_eq!(m.total_pre_dyn_deposits(), 6_000);
    assert!(m.deposit_exists());
    run_to_epoch(&mut m, &mut rt, 5);
    // With deposits the new epoch is no longer finalized at once.
    assert_eq!(m.current_dynasty(), 4);
    assert!(!m.check_points_by_epoch(4).is_justified);
    assert_eq!(m.check_points_by_epoch(5).cur_dyn_deposits, 6_000);
    assert_eq!(m.check_points_by_epoch(5).prev_dyn_deposits, 6_000);
    assert_eq!(m.expected_source_epoch(), 3);
}

/// Alice deposits and the chain runs to epoch 5, where the totals hold her deposit.
fn voting_chain() -> (Module, Runtime<MockRuntime>) {
    let mut m = Module::new(config());
    let mut rt = Runtime::new(MockRuntime::new());
    m.deposit(&mut rt, Origin::Signed(ALICE), 1_000_000, 100, ALICE_STASH).unwrap();
    run_to_epoch(&mut m, &mut rt, 5);
    (m, rt)
}

#[test]
fn supermajority_vote_justifies_and_finalizes() {
    let (mut m, mut rt) = voting_chain();
    let hash = m.recommended_target_hash();
    assert_eq!(hash, hash_of(40));
    // Epoch 3 is justified; epoch 5 is the target.
    let r = m.vote(Origin::Signed(ALICE), 1, 3, 5, hash);
    assert_eq!(r, Ok(Event::Vote(ALICE, 1, 3, 5, hash)));
    assert!(m.check_points_by_epoch(5).is_justified);
    assert!(m.check_points_by_epoch(5).has_voted(1));
    // Epoch 5 does not follow epoch 3: nothing is finalized.
    assert_eq!(m.last_finalized_epoch(), 3);
    assert!(!m.check_points_by_epoch(5).is_finalized);
    assert_eq!(m.last_justified_epoch(), 5);
    assert!(m.main_hash_justified());
    // Epoch 3 is the expected source epoch: 1_000_000 / 10_000 * 1.
    assert_eq!(m.validator_by_id(1).unwrap().reward, 100);
    // Epoch 6: epoch 5 is the expected source, and the link 5 -> 6 is consecutive.
    run_to_epoch(&mut m, &mut rt, 6);
    assert_eq!(m.expected_source_epoch(), 5);
    let hash = m.recommended_target_hash();
    assert_eq!(hash, hash_of(50));
    let r = m.vote(Origin::Signed(ALICE), 1, 5, 6, hash);
    assert_eq!(r, Ok(Event::Vote(ALICE, 1, 5, 6, hash)));
    assert!(m.check_points_by_epoch(6).is_justified);
    assert!(m.check_points_by_epoch(5).is_finalized);
    assert_eq!(m.last_finalized_epoch(), 5);
    assert_eq!(m.last_finalized_hash(), hash);
    assert_eq!(m.validator_by_id(1).unwrap().reward, 200);
}

#[test]
fn a_validator_votes_once_per_target() {
    let (mut m, _rt) = voting_chain();
    let hash = m.recommended_target_hash();
    assert!(m.vote(Origin::Signed(ALICE), 1, 3, 5, hash).is_ok());
    assert_eq!(
        m.vote(Origin::Signed(ALICE), 1, 3, 5, hash),
        module_err(Error::SenderVotedBefore)
    );
    assert_eq!(
        m.vote(Origin::Signed(ALICE), 1, 4, 5, hash_of(3)),
        module_err(Error::SenderVotedBefore)
    );
}

#[test]
fn minority_vote_justifies_nothing() {
    let mut m = Module::new(config());
    let mut rt = Runtime::new(MockRuntime::new());
    m.deposit(&mut rt, Origin::Signed(ALICE), 1_000_000, 100, ALICE_STASH).unwrap();
    m.deposit(&mut rt, Origin::Signed(BOB), 3_000_000, 100, BOB_STASH).unwrap();
    run_to_epoch(&mut m, &mut rt, 5);
    let hash = m.recommended_target_hash();
    assert_eq!(
        m.vote(Origin::Signed(ALICE), 1, 3, 5, hash),
        Ok(Event::Vote(ALICE, 1, 3, 5, hash))
    );
    assert!(!m.check_points_by_epoch(5).is_justified);
    assert!(m.check_points_by_epoch(5).has_voted(1));
    assert_eq!(m.last_justified_epoch(), 3);
    // Bob's vote brings the count to all of the deposits.
    assert!(m.vote(Origin::Signed(BOB), 2, 3, 5, hash).is_ok());
    assert!(m.check_points_by_epoch(5).is_justified);
}

#[test]
fn vote_refusals() {
    let (mut m, mut rt) = voting_chain();
    let hash = m.recommended_target_hash();
    assert_eq!(m.vote(Origin::Unsigned, 1, 3, 5, hash), Err(DispatchError::BadOrigin));
    assert_eq!(
        m.vote(Origin::Signed(ALICE), 1, 3, 4, hash),
        module_err(Error::WrongTargetEpoch)
    );
    assert_eq!(
        m.vote(Origin::Signed(ALICE), 9, 3, 5, hash),
        module_err(Error::ValidatorNotRegistered)
    );
    assert_eq!(
        m.vote(Origin::Signed(BOB), 1, 3, 5, hash),
        module_err(Error::VoteSenderDifferWithRegistered)
    );
    assert_eq!(
        m.vote(Origin::Signed(ALICE), 1, 3, 5, hash_of(1)),
        module_err(Error::VoteOnWrongBlockHash)
    );
    assert_eq!(
        m.vote(Origin::Signed(ALICE), 1, 4, 5, hash),
        module_err(Error::VotedSourceEpochNotJustified)
    );
    // Bob's validator ended before the current dynasty.
    m.deposit(&mut rt, Origin::Signed(BOB), 5_000, 3, BOB_STASH).unwrap();
    assert_eq!(
        m.vote(Origin::Signed(BOB), 2, 3, 5, hash),
        module_err(Error::VoteNotInCorrectDynasty)
    );
    assert!(!m.check_points_by_epoch(5).has_voted(1));
    assert!(!m.check_points_by_epoch(5).is_justified);
}




fn finalized_epochs(m: &Module, up_to: u32) -> Vec<u32> {
    (0..=up_to).filter(|e| m.check_points_by_epoch(*e).is_finalized).collect()
}

#[test]
fn finalized_checkpoints_are_justified_and_stay_finalized() {
    let (mut m, mut rt) = voting_chain();
    let mut seen = finalized_epochs(&m, 10);
    for epoch in 5..9 {
        run_to_epoch(&mut m, &mut rt, epoch);
        let source = m.last_justified_epoch();
        let hash = m.recommended_target_hash();
        let _ = m.vote(Origin::Signed(ALICE), 1, source, epoch, hash);
        let _ = m.deposit(&mut rt, Origin::Signed(BOB), 2_000, 50, 100 + epoch as u64);
        let now = finalized_epochs(&m, 10);
        for e in &seen {
            assert!(now.contains(e));
        }
        for e in &now {
            assert!(m.check_points_by_epoch(*e).is_justified);
        }
        for e in 0..=10 {
            if m.check_points_by_epoch(e).is_justified {
                assert!(e <= m.current_epoch());
            }
        }
        seen = now;
    }
    assert!(seen.contains(&7));
}

#[test]
fn restarting_epoch_zero_clears_its_checkpoint() {
    let mut m = Module::new(config());
    let mut rt = Runtime::new(MockRuntime::new());
    m.initialize_epoch(&mut rt, 0);
    m.initialize_epoch(&mut rt, 1);
    assert!(m.check_points_by_epoch(0).is_finalized);
    m.initialize_epoch(&mut rt, 0);
    assert_eq!(m.current_epoch(), 0);
    assert!(!m.check_points_by_epoch(0).is_finalized);
}

#[test]
fn proc_reward_multiplies_before_dividing() {
    let mut cfg = config();
    cfg.reward_factor = 3;
    let mut m = Module::new(cfg);
    let mut rt = Runtime::new(MockRuntime::new());
    m.deposit(&mut rt, Origin::Signed(ALICE), 19_999, 100, ALICE_STASH).unwrap();
    m.proc_reward(1);
    // 19_999 * 3 / 10_000 = 5.
    assert_eq!(m.validator_by_id(1).unwrap().reward, 5);
    m.proc_reward(1);
    assert_eq!(m.validator_by_id(1).unwrap().reward, 10);
    assert_eq!(m.validator_by_id(1).unwrap().deposit, 19_999);
}

#[test]
fn proc_reward_of_a_large_deposit() {
    let mut cfg = config();
    cfg.reward_factor = 3;
    cfg.reward_rate_base = 4;
    cfg.min_deposit = 0;
    let mut m = Module::new(cfg);
    let mut rt = Runtime::new(MockRuntime::new());
    // deposit * 3 does not fit in 128 bits, the reward does.
    m.deposit(&mut rt, Origin::Signed(ALICE), u128::MAX / 2, 100, ALICE_STASH).unwrap();
    m.proc_reward(1);
    // (2^127 - 1) * 3 / 4 = 3 * 2^125 - 1.
    assert_eq!(m.validator_by_id(1).unwrap().reward, 3 * (1u128 << 125) - 1);
}

#[test]
fn logout_moves_the_end_dynasty() {
    let mut m = Module::new(config());
    let mut rt = Runtime::new(MockRuntime::new());
    m.deposit(&mut rt, Origin::Signed(ALICE), 5_000, 100, ALICE_STASH).unwrap();
    m.deposit(&mut rt, Origin::Signed(BOB), 5_000, 1, BOB_STASH).unwrap();
    assert_eq!(m.logout(Origin::Root, 1, 0), Err(DispatchError::BadOrigin));
    assert_eq!(
        m.logout(Origin::Signed(ALICE_STASH), 1, 3),
        module_err(Error::EpochNotReachedForLogout)
    );
    assert_eq!(
        m.logout(Origin::Signed(ALICE_STASH), 7, 0),
        module_err(Error::ValidatorNotRegistered)
    );
    assert_eq!(
        m.logout(Origin::Signed(ALICE), 1, 0),
        module_err(Error::OnlyWithdrawAccountCanLogout)
    );
    // Bob's end dynasty 1 is before dynasty 0 + logout delay 2.
    assert_eq!(
        m.logout(Origin::Signed(BOB_STASH), 2, 0),
        module_err(Error::DynastyNotReachedForLogout)
    );
    assert_eq!(m.validator_by_id(1).unwrap().end_dynasty, 100);
    assert_eq!(m.logout(Origin::Signed(ALICE_STASH), 1, 0), Ok(Event::Logout(1, 0)));
    // The end dynasty is now dynasty 0 + logout delay 2.
    assert_eq!(m.validator_by_id(1).unwrap().end_dynasty, 2);
    assert_eq!(m.validator_by_id(1).unwrap().deposit, 5_000);
}

#[test]
fn withdraw_refusals_on_dynasty_and_epoch() {
    let mut m = Module::new(config());
    let mut rt = Runtime::new(MockRuntime::new());
    m.deposit(&mut rt, Origin::Signed(ALICE), 5_000, 0, ALICE_STASH).unwrap();
    m.deposit(&mut rt, Origin::Signed(BOB), 5_000, 100, BOB_STASH).unwrap();
    assert_eq!(m.withdraw(&mut rt, Origin::Unsigned, 1), Err(DispatchError::BadOrigin));
    assert_eq!(
        m.withdraw(&mut rt, Origin::Signed(BOB), 5),
        module_err(Error::ValidatorNotRegistered)
    );
    // Dynasty 0 is not over yet.
    assert_eq!(
        m.withdraw(&mut rt, Origin::Signed(ALICE), 1),
        module_err(Error::DynastyNotReachedForWithdraw)
    );
    run_to_epoch(&mut m, &mut rt, 2);
    assert_eq!(m.current_dynasty(), 1);
    assert_eq!(m.dynasty_start_epoch(1), 2);
    // Dynasty 0 is over, but dynasty 1 began at epoch 2: the delay runs to epoch 12.
    assert_eq!(
        m.withdraw(&mut rt, Origin::Signed(ALICE), 1),
        module_err(Error::EpochNotReachedForWithdraw)
    );
    // Bob's end dynasty 100 is far away.
    assert_eq!(
        m.withdraw(&mut rt, Origin::Signed(BOB), 2),
        module_err(Error::DynastyNotReachedForWithdraw)
    );
    assert!(rt.inner().unreserved.is_empty());
    assert!(rt.inner().paid.is_empty());
}

#[test]
fn withdraw_pays_back_and_removes() {
    let mut cfg = config();
    cfg.withdraw_delay = 0;
    let mut m = Module::new(cfg);
    let mut rt = Runtime::new(MockRuntime::new());
    m.deposit(&mut rt, Origin::Signed(ALICE), 1_000_000, 0, ALICE_STASH).unwrap();
    m.proc_reward(1);
    run_to_epoch(&mut m, &mut rt, 2);
    rt = set_refusals(rt, false, true);
    assert_eq!(m.withdraw(&mut rt, Origin::Signed(BOB), 1), Err(DispatchError::Currency(2)));
    assert!(m.validator_by_id(1).is_some());
    assert_eq!(m.validator_id_by_account(ALICE_STASH), 1);
    rt = set_refusals(rt, false, false);
    // Anyone may trigger the withdrawal; the money goes to the withdraw account.
    assert_eq!(m.withdraw(&mut rt, Origin::Signed(BOB), 1), Ok(Event::Withdraw(1)));
    assert_eq!(rt.inner().paid, vec![(ALICE_STASH, 100)]);
    assert_eq!(
        rt.inner().unreserved,
        vec![(ALICE_STASH, 1_000_000), (ALICE_STASH, 1_000_000)]
    );
    assert_eq!(m.validator_by_id(1), None);
    assert_eq!(m.validator_id_by_account(ALICE_STASH), 0);
    assert_eq!(
        m.withdraw(&mut rt, Origin::Signed(BOB), 1),
        module_err(Error::ValidatorNotRegistered)
    );
}

#[test]
fn votes_for_a_source_add_up() {
    let mut m = Module::new(config());
    let mut rt = Runtime::new(MockRuntime::new());
    m.deposit(&mut rt, Origin::Signed(ALICE), 1_000_000, 100, ALICE_STASH).unwrap();
    m.deposit(&mut rt, Origin::Signed(BOB), 1_000_000, 100, BOB_STASH).unwrap();
    run_to_epoch(&mut m, &mut rt, 5);
    let hash = m.recommended_target_hash();
    assert!(m.vote(Origin::Signed(ALICE), 1, 3, 5, hash).is_ok());
    assert_eq!(m.current_dynasty_votes(5, 3), 1_000_000);
    assert_eq!(m.pre_dynasty_votes(5, 3), 1_000_000);
    // Half of the deposits: not yet two thirds.
    assert!(!m.check_points_by_epoch(5).is_justified);
    assert!(m.vote(Origin::Signed(BOB), 2, 3, 5, hash).is_ok());
    assert_eq!(m.current_dynasty_votes(5, 3), 2_000_000);
    assert_eq!(m.pre_dynasty_votes(5, 3), 2_000_000);
    assert!(m.check_points_by_epoch(5).is_justified);
    assert_eq!(m.last_justified_epoch(), 5);
}

#[test]
fn vote_outside_dynasty_zero() {
    let mut m = Module::new(config());
    let mut rt = Runtime::new(MockRuntime::new());
    m.deposit(&mut rt, Origin::Signed(ALICE), 5_000, 100, ALICE_STASH).unwrap();
    m.initialize_epoch(&mut rt, 0);
    assert_eq!(m.current_dynasty(), 0);
    // The validator starts at dynasty 2; at dynasty 0 there is no previous dynasty.
    assert_eq!(
        m.vote(Origin::Signed(ALICE), 1, 0, 0, m.recommended_target_hash()),
        module_err(Error::VoteNotInCorrectDynasty)
    );
}

#[test]
fn a_deposit_counts_once_per_link() {
    let mut m = Module::new(config());
    let mut rt = Runtime::new(MockRuntime::new());
    // Alice holds 40 of 100 in both dynasties.
    m.deposit(&mut rt, Origin::Signed(ALICE), 40_000, 100, ALICE_STASH).unwrap();
    m.deposit(&mut rt, Origin::Signed(BOB), 60_000, 100, BOB_STASH).unwrap();
    run_to_epoch(&mut m, &mut rt, 5);
    let hash = m.recommended_target_hash();
    assert!(m.vote(Origin::Signed(ALICE), 1, 3, 5, hash).is_ok());
    assert!(!m.check_points_by_epoch(5).is_justified);
    run_to_epoch(&mut m, &mut rt, 6);
    let hash = m.recommended_target_hash();
    assert!(m.vote(Origin::Signed(ALICE), 1, 3, 6, hash).is_ok());
    // The link 3 -> 6 holds Alice's deposit once: still 40 of 100.
    assert_eq!(m.current_dynasty_votes(6, 3), 40_000);
    assert_eq!(m.current_dynasty_votes(5, 3), 40_000);
    assert!(!m.check_points_by_epoch(6).is_justified);
}
