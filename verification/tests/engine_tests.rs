use escrow_engine::account::{Address, Caller};
use escrow_engine::engine::{
    accept, cancel, deposit, init_admin, initialize, reclaim, reset_time_lock, settle, withdraw,
    withdraw_fees, Balances, SettlementTerms,
};
use escrow_engine::errors::EscrowError;
use escrow_engine::state::{AdminConfig, EscrowRecord, LifecycleState, ParticipantPosition};

fn addr(n: u8) -> Address {
    Address { bytes: [n; 32] }
}

fn signer(n: u8) -> Caller {
    Caller { address: addr(n), is_signer: true }
}

const PROGRAM: u8 = 9;
const RECORD: u8 = 1;
const DEPOSITOR: u8 = 2;
const ACCEPTOR: u8 = 3;
const ADMIN: u8 = 8;
const NOW: u64 = 10_000;

fn config() -> AdminConfig {
    AdminConfig { admin: addr(ADMIN), initialized: true }
}

/// initialize(expected = 1000, unlock = +100, timeout = +1000), one-sided.
fn new_record() -> EscrowRecord {
    initialize(
        &addr(PROGRAM),
        &addr(RECORD),
        &signer(DEPOSITOR),
        b"escrow deal".to_vec(),
        1000,
        0,
        None,
        NOW,
        100,
        1000,
    )
    .expect("initialize")
}

/// The same, but two-sided: the acceptor owes 1000 and positions are taken.
fn new_bet_record() -> EscrowRecord {
    initialize(
        &addr(PROGRAM),
        &addr(RECORD),
        &signer(DEPOSITOR),
        b"price prediction".to_vec(),
        1000,
        1000,
        Some(ParticipantPosition::Long),
        NOW,
        100,
        1000,
    )
    .expect("initialize")
}

fn start_balances() -> Balances {
    Balances { depositor: 5000, counterparty: 7000, vault: 0, fee_vault: 0 }
}

fn funded() -> (EscrowRecord, Balances) {
    let rec = new_record();
    let auth = rec.authority;
    let vault = rec.vault;
    deposit(
        rec,
        start_balances(),
        &signer(DEPOSITOR),
        &addr(PROGRAM),
        &auth,
        &vault,
        1000,
    )
    .expect("deposit")
}

fn accepted_bet() -> (EscrowRecord, Balances) {
    let rec = new_bet_record();
    let auth = rec.authority;
    let vault = rec.vault;
    let (rec, bal) = deposit(
        rec,
        start_balances(),
        &signer(DEPOSITOR),
        &addr(PROGRAM),
        &auth,
        &vault,
        1000,
    )
    .expect("deposit");
    accept(
        rec,
        bal,
        &signer(ACCEPTOR),
        &addr(PROGRAM),
        &auth,
        &vault,
        1000,
        Some(ParticipantPosition::Short),
    )
    .expect("accept")
}

fn total(b: &Balances) -> u128 {
    b.depositor as u128 + b.counterparty as u128 + b.vault as u128 + b.fee_vault as u128
}

#[test]
fn initialize_populates_record() {
    let rec = new_record();
    assert_eq!(rec.state, LifecycleState::Funded);
    assert_eq!(rec.expected_amount, 1000);
    assert_eq!(rec.deposited_amount, 0);
    assert_eq!(rec.unlock_time, NOW + 100);
    assert_eq!(rec.timeout_time, NOW + 1000);
    assert_eq!(rec.depositor.bytes, addr(DEPOSITOR).bytes);
    assert!(rec.counterparty.is_none());
    assert!(rec.authority.bytes != rec.vault.bytes);
}

#[test]
fn initialize_rejects_bad_metadata() {
    let make = |metadata: Vec<u8>| {
        initialize(
            &addr(PROGRAM),
            &addr(RECORD),
            &signer(DEPOSITOR),
            metadata,
            1000,
            0,
            None,
            NOW,
            100,
            1000,
        )
    };
    assert!(matches!(make(Vec::new()), Err(EscrowError::MetadataInvalid)));
    assert!(matches!(make(b"   \t\n".to_vec()), Err(EscrowError::MetadataInvalid)));
    assert!(matches!(make(vec![b'x'; 1025]), Err(EscrowError::MetadataInvalid)));
    assert!(make(vec![b'x'; 1024]).is_ok());
}

#[test]
fn initialize_rejects_bad_window_and_overflow() {
    let make = |expected: u64, accept_amt: u64, now: u64, unlock: u64, timeout: u64| {
        initialize(
            &addr(PROGRAM),
            &addr(RECORD),
            &signer(DEPOSITOR),
            b"escrow deal".to_vec(),
            expected,
            accept_amt,
            None,
            now,
            unlock,
            timeout,
        )
    };
    assert!(matches!(make(1000, 0, NOW, 100, 100), Err(EscrowError::WindowInvalid)));
    assert!(matches!(make(1000, 0, NOW, 1000, 100), Err(EscrowError::WindowInvalid)));
    assert!(matches!(make(1000, 0, u64::MAX, 1, 2), Err(EscrowError::AmountOverflow)));
    assert!(matches!(
        make(u64::MAX, u64::MAX, NOW, 100, 1000),
        Err(EscrowError::AmountOverflow)
    ));
    assert!(matches!(make(0, 0, NOW, 100, 1000), Err(EscrowError::AmountInvalid)));
}

#[test]
fn initialize_requires_signature() {
    let unsigned = Caller { address: addr(DEPOSITOR), is_signer: false };
    let out = initialize(
        &addr(PROGRAM),
        &addr(RECORD),
        &unsigned,
        b"escrow deal".to_vec(),
        1000,
        0,
        None,
        NOW,
        100,
        1000,
    );
    assert!(matches!(out, Err(EscrowError::SignerMissing)));
}

#[test]
fn zero_amount_rejected_everywhere() {
    let (rec, bal) = funded();
    let auth = rec.authority;
    let vault = rec.vault;
    let dep = signer(DEPOSITOR);
    let prog = addr(PROGRAM);
    let out = deposit(rec.clone(), bal, &dep, &prog, &auth, &vault, 0);
    assert!(matches!(out, Err(EscrowError::AmountInvalid)));
    let out = accept(
        rec.clone(),
        bal,
        &signer(ACCEPTOR),
        &prog,
        &auth,
        &vault,
        0,
        None,
    );
    assert!(matches!(out, Err(EscrowError::AmountInvalid)));
    let out = withdraw(rec.clone(), bal, &dep, &prog, &auth, &vault, 0);
    assert!(matches!(out, Err(EscrowError::AmountInvalid)));
    for terms in [
        SettlementTerms::Exchange { amount: 0 },
        SettlementTerms::NetOfFee { winning_position: ParticipantPosition::Long, fee: 0 },
        SettlementTerms::DepositPlusWinnings {
            winning_position: ParticipantPosition::Long,
            winnings: 0,
        },
    ] {
        let out = settle(
            rec.clone(),
            bal,
            &config(),
            &dep,
            &prog,
            &auth,
            &vault,
            NOW + 150,
            terms,
        );
        assert!(matches!(out, Err(EscrowError::AmountInvalid)));
    }
    let out = withdraw_fees(&config(), &signer(ADMIN), 100, 0, 0);
    assert!(matches!(out, Err(EscrowError::AmountInvalid)));
}

#[test]
fn deposit_moves_funds_and_tracks_target() {
    let (rec, bal) = funded();
    assert_eq!(rec.deposited_amount, 1000);
    assert_eq!(bal.vault, 1000);
    assert_eq!(bal.depositor, 4000);
    assert_eq!(total(&bal), total(&start_balances()));
    // The target is met: one more unit is over the headroom.
    let auth = rec.authority;
    let vault = rec.vault;
    let out = deposit(rec, bal, &signer(DEPOSITOR), &addr(PROGRAM), &auth, &vault, 1);
    assert!(matches!(out, Err(EscrowError::AmountInvalid)));
}

#[test]
fn deposit_rejects_overfunding_in_one_step() {
    let rec = new_record();
    let auth = rec.authority;
    let vault = rec.vault;
    let out = deposit(
        rec,
        start_balances(),
        &signer(DEPOSITOR),
        &addr(PROGRAM),
        &auth,
        &vault,
        1001,
    );
    assert!(matches!(out, Err(EscrowError::AmountInvalid)));
}

#[test]
fn deposit_rejects_insufficient_funds() {
    let rec = new_record();
    let auth = rec.authority;
    let vault = rec.vault;
    let poor = Balances { depositor: 500, counterparty: 0, vault: 0, fee_vault: 0 };
    let out = deposit(rec, poor, &signer(DEPOSITOR), &addr(PROGRAM), &auth, &vault, 1000);
    assert!(matches!(out, Err(EscrowError::InsufficientFunds)));
}

#[test]
fn deposit_rejects_strangers_and_unsigned() {
    let rec = new_record();
    let auth = rec.authority;
    let vault = rec.vault;
    let out = deposit(
        rec.clone(),
        start_balances(),
        &signer(ACCEPTOR),
        &addr(PROGRAM),
        &auth,
        &vault,
        1000,
    );
    assert!(matches!(out, Err(EscrowError::OwnerMismatch)));
    let unsigned = Caller { address: addr(DEPOSITOR), is_signer: false };
    let out = deposit(
        rec,
        start_balances(),
        &unsigned,
        &addr(PROGRAM),
        &auth,
        &vault,
        1000,
    );
    assert!(matches!(out, Err(EscrowError::SignerMissing)));
}

#[test]
fn deposit_rejects_wrong_record_owner() {
    let rec = new_record();
    let auth = rec.authority;
    let vault = rec.vault;
    let out = deposit(
        rec,
        start_balances(),
        &signer(DEPOSITOR),
        &addr(99),
        &auth,
        &vault,
        1000,
    );
    assert!(matches!(out, Err(EscrowError::OwnerMismatch)));
}

#[test]
fn forged_authority_rejected_for_every_instruction() {
    let (rec, bal) = funded();
    let vault = rec.vault;
    let auth = rec.authority;
    let forged = addr(42);
    let dep = signer(DEPOSITOR);
    let prog = addr(PROGRAM);
    let out = deposit(rec.clone(), bal, &dep, &prog, &forged, &vault, 1);
    assert!(matches!(out, Err(EscrowError::AuthorityMismatch)));
    let out = withdraw(rec.clone(), bal, &dep, &prog, &forged, &vault, 1);
    assert!(matches!(out, Err(EscrowError::AuthorityMismatch)));
    let out = cancel(rec.clone(), bal, &dep, &prog, &forged, &vault);
    assert!(matches!(out, Err(EscrowError::AuthorityMismatch)));
    let out = reclaim(rec.clone(), bal, &dep, &prog, &forged, &vault, NOW + 1000);
    assert!(matches!(out, Err(EscrowError::AuthorityMismatch)));
    let out = settle(
        rec.clone(),
        bal,
        &config(),
        &dep,
        &prog,
        &auth,
        &forged,
        NOW + 150,
        SettlementTerms::Exchange { amount: 1000 },
    );
    assert!(matches!(out, Err(EscrowError::AuthorityMismatch)));
    // A vault address that is not the derived vault is equally refused.
    let out = settle(
        rec,
        bal,
        &config(),
        &dep,
        &prog,
        &forged,
        &vault,
        NOW + 150,
        SettlementTerms::Exchange { amount: 1000 },
    );
    assert!(matches!(out, Err(EscrowError::AuthorityMismatch)));
}

#[test]
fn settle_scenario_exchange() {
    // initialize(expected = 1000, unlock = +100, timeout = +1000),
    // deposit(1000), settle at +50 is too early, settle(1000) at +150
    // succeeds and pays the counterpart side exactly 1000.
    let (rec, bal) = funded();
    let auth = rec.authority;
    let vault = rec.vault;
    let dep = signer(DEPOSITOR);
    let prog = addr(PROGRAM);
    let out = settle(
        rec.clone(),
        bal,
        &config(),
        &dep,
        &prog,
        &auth,
        &vault,
        NOW + 50,
        SettlementTerms::Exchange { amount: 1000 },
    );
    assert!(matches!(out, Err(EscrowError::TooEarly)));
    let (rec2, bal2) = settle(
        rec,
        bal,
        &config(),
        &dep,
        &prog,
        &auth,
        &vault,
        NOW + 150,
        SettlementTerms::Exchange { amount: 1000 },
    )
    .expect("settle");
    assert_eq!(rec2.state, LifecycleState::Settled);
    assert_eq!(rec2.payout_amount, 1000);
    assert_eq!(bal2.vault, 0);
    assert_eq!(bal2.counterparty, 7000 + 1000);
    assert_eq!(bal2.depositor, 4000);
    assert_eq!(total(&bal2), total(&start_balances()));
}

#[test]
fn settle_rejects_amount_mismatch() {
    let (rec, bal) = funded();
    let auth = rec.authority;
    let vault = rec.vault;
    let out = settle(
        rec,
        bal,
        &config(),
        &signer(DEPOSITOR),
        &addr(PROGRAM),
        &auth,
        &vault,
        NOW + 150,
        SettlementTerms::Exchange { amount: 999 },
    );
    assert!(matches!(out, Err(EscrowError::AmountInvalid)));
}

#[test]
fn settle_rejects_expired_then_only_reclaim_succeeds() {
    // Same setup, advance to +1000: settle is expired, reclaim succeeds with
    // the full 1000 returned, and settling thereafter is an illegal state
    // transition.
    let (rec, bal) = funded();
    let auth = rec.authority;
    let vault = rec.vault;
    let dep = signer(DEPOSITOR);
    let prog = addr(PROGRAM);
    let out = settle(
        rec.clone(),
        bal,
        &config(),
        &dep,
        &prog,
        &auth,
        &vault,
        NOW + 1000,
        SettlementTerms::Exchange { amount: 1000 },
    );
    assert!(matches!(out, Err(EscrowError::Expired)));
    let out = reclaim(rec.clone(), bal, &dep, &prog, &auth, &vault, NOW + 999);
    assert!(matches!(out, Err(EscrowError::TooEarly)));
    let (rec2, bal2) = reclaim(rec, bal, &dep, &prog, &auth, &vault, NOW + 1000)
        .expect("reclaim");
    assert_eq!(rec2.state, LifecycleState::Expired);
    assert_eq!(bal2.vault, 0);
    assert_eq!(bal2.depositor, 5000);
    assert_eq!(total(&bal2), total(&start_balances()));
    let out = settle(
        rec2,
        bal2,
        &config(),
        &dep,
        &prog,
        &auth,
        &vault,
        NOW + 1001,
        SettlementTerms::Exchange { amount: 1000 },
    );
    assert!(matches!(out, Err(EscrowError::IllegalStateTransition)));
}

#[test]
fn cancel_refunds_once_and_only_once() {
    let (rec, bal) = funded();
    let auth = rec.authority;
    let vault = rec.vault;
    let dep = signer(DEPOSITOR);
    let prog = addr(PROGRAM);
    let (rec2, bal2) = cancel(rec, bal, &dep, &prog, &auth, &vault).expect("cancel");
    assert_eq!(rec2.state, LifecycleState::Cancelled);
    assert_eq!(bal2.vault, 0);
    assert_eq!(bal2.depositor, 5000);
    let out = cancel(rec2, bal2, &dep, &prog, &auth, &vault);
    assert!(matches!(out, Err(EscrowError::IllegalStateTransition)));
}

#[test]
fn cancel_requires_the_depositor() {
    let (rec, bal) = funded();
    let auth = rec.authority;
    let vault = rec.vault;
    let out = cancel(rec, bal, &signer(ACCEPTOR), &addr(PROGRAM), &auth, &vault);
    assert!(matches!(out, Err(EscrowError::OwnerMismatch)));
}

#[test]
fn accept_moves_funds_and_flips_state() {
    let (rec, bal) = accepted_bet();
    assert_eq!(rec.state, LifecycleState::Accepted);
    assert_eq!(rec.accepted_amount, 1000);
    assert_eq!(rec.counterparty.unwrap().bytes, addr(ACCEPTOR).bytes);
    assert_eq!(bal.vault, 2000);
    assert_eq!(bal.counterparty, 6000);
    assert_eq!(total(&bal), total(&start_balances()));
}

#[test]
fn accept_rejects_depositor_and_same_position() {
    let rec = new_bet_record();
    let auth = rec.authority;
    let vault = rec.vault;
    let (rec, bal) = deposit(
        rec,
        start_balances(),
        &signer(DEPOSITOR),
        &addr(PROGRAM),
        &auth,
        &vault,
        1000,
    )
    .expect("deposit");
    let out = accept(
        rec.clone(),
        bal,
        &signer(DEPOSITOR),
        &addr(PROGRAM),
        &auth,
        &vault,
        1000,
        Some(ParticipantPosition::Short),
    );
    assert!(matches!(out, Err(EscrowError::CounterpartyInvalid)));
    let out = accept(
        rec.clone(),
        bal,
        &signer(ACCEPTOR),
        &addr(PROGRAM),
        &auth,
        &vault,
        1000,
        Some(ParticipantPosition::Long),
    );
    assert!(matches!(out, Err(EscrowError::PositionInvalid)));
    let out = accept(
        rec,
        bal,
        &signer(ACCEPTOR),
        &addr(PROGRAM),
        &auth,
        &vault,
        999,
        Some(ParticipantPosition::Short),
    );
    assert!(matches!(out, Err(EscrowError::AmountInvalid)));
}

#[test]
fn settle_net_of_fee_pays_custody_minus_fee() {
    // payout = bet_amount + taker_amount - fee = 1000 + 1000 - 100 = 1900.
    let (rec, bal) = accepted_bet();
    let auth = rec.authority;
    let vault = rec.vault;
    let (rec2, bal2) = settle(
        rec,
        bal,
        &config(),
        &signer(DEPOSITOR),
        &addr(PROGRAM),
        &auth,
        &vault,
        NOW + 150,
        SettlementTerms::NetOfFee { winning_position: ParticipantPosition::Long, fee: 100 },
    )
    .expect("settle");
    assert_eq!(rec2.state, LifecycleState::Settled);
    assert_eq!(rec2.payout_amount, 1900);
    assert_eq!(rec2.winner.unwrap().bytes, addr(DEPOSITOR).bytes);
    assert_eq!(bal2.vault, 0);
    assert_eq!(bal2.depositor, 4000 + 1900);
    assert_eq!(bal2.fee_vault, 100);
    assert_eq!(total(&bal2), total(&start_balances()));
}

#[test]
fn settle_net_of_fee_pays_the_short_winner() {
    let (rec, bal) = accepted_bet();
    let auth = rec.authority;
    let vault = rec.vault;
    let (rec2, bal2) = settle(
        rec,
        bal,
        &config(),
        &signer(DEPOSITOR),
        &addr(PROGRAM),
        &auth,
        &vault,
        NOW + 150,
        SettlementTerms::NetOfFee { winning_position: ParticipantPosition::Short, fee: 100 },
    )
    .expect("settle");
    assert_eq!(rec2.winner.unwrap().bytes, addr(ACCEPTOR).bytes);
    assert_eq!(bal2.counterparty, 6000 + 1900);
    assert_eq!(bal2.fee_vault, 100);
}

#[test]
fn settle_net_of_fee_rejects_fee_over_custody() {
    let (rec, bal) = accepted_bet();
    let auth = rec.authority;
    let vault = rec.vault;
    let out = settle(
        rec,
        bal,
        &config(),
        &signer(DEPOSITOR),
        &addr(PROGRAM),
        &auth,
        &vault,
        NOW + 150,
        SettlementTerms::NetOfFee { winning_position: ParticipantPosition::Long, fee: 2000 },
    );
    assert!(matches!(out, Err(EscrowError::AmountInvalid)));
}

#[test]
fn settle_net_of_fee_requires_admin_config() {
    let (rec, bal) = accepted_bet();
    let auth = rec.authority;
    let vault = rec.vault;
    let uninitialized = AdminConfig { admin: addr(ADMIN), initialized: false };
    let out = settle(
        rec,
        bal,
        &uninitialized,
        &signer(DEPOSITOR),
        &addr(PROGRAM),
        &auth,
        &vault,
        NOW + 150,
        SettlementTerms::NetOfFee { winning_position: ParticipantPosition::Long, fee: 100 },
    );
    assert!(matches!(out, Err(EscrowError::NotInitialized)));
}

#[test]
fn settle_positions_required_for_prediction() {
    // A one-sided record has no declared positions: a position settlement is
    // rejected even though the record is open.
    let (rec, bal) = funded();
    let auth = rec.authority;
    let vault = rec.vault;
    let out = settle(
        rec,
        bal,
        &config(),
        &signer(DEPOSITOR),
        &addr(PROGRAM),
        &auth,
        &vault,
        NOW + 150,
        SettlementTerms::NetOfFee { winning_position: ParticipantPosition::Long, fee: 100 },
    );
    assert!(matches!(out, Err(EscrowError::PositionInvalid)));
}

#[test]
fn settle_deposit_plus_winnings_splits_custody() {
    // The winner takes its own 1000 plus 400 of the loser's side; the loser
    // keeps the remaining 600.
    let (rec, bal) = accepted_bet();
    let auth = rec.authority;
    let vault = rec.vault;
    let (rec2, bal2) = settle(
        rec,
        bal,
        &config(),
        &signer(DEPOSITOR),
        &addr(PROGRAM),
        &auth,
        &vault,
        NOW + 150,
        SettlementTerms::DepositPlusWinnings {
            winning_position: ParticipantPosition::Long,
            winnings: 400,
        },
    )
    .expect("settle");
    assert_eq!(rec2.payout_amount, 1400);
    assert_eq!(bal2.depositor, 4000 + 1400);
    assert_eq!(bal2.counterparty, 6000 + 600);
    assert_eq!(bal2.vault, 0);
    assert_eq!(bal2.fee_vault, 0);
    assert_eq!(total(&bal2), total(&start_balances()));
}

#[test]
fn settle_deposit_plus_winnings_bounds_winnings() {
    let (rec, bal) = accepted_bet();
    let auth = rec.authority;
    let vault = rec.vault;
    let out = settle(
        rec,
        bal,
        &config(),
        &signer(DEPOSITOR),
        &addr(PROGRAM),
        &auth,
        &vault,
        NOW + 150,
        SettlementTerms::DepositPlusWinnings {
            winning_position: ParticipantPosition::Long,
            winnings: 1001,
        },
    );
    assert!(matches!(out, Err(EscrowError::AmountInvalid)));
}

#[test]
fn withdraw_returns_part_of_the_deposit() {
    let (rec, bal) = funded();
    let auth = rec.authority;
    let vault = rec.vault;
    let dep = signer(DEPOSITOR);
    let prog = addr(PROGRAM);
    let (rec2, bal2) = withdraw(rec, bal, &dep, &prog, &auth, &vault, 300).expect("withdraw");
    assert_eq!(rec2.deposited_amount, 700);
    assert_eq!(rec2.state, LifecycleState::Funded);
    assert_eq!(bal2.vault, 700);
    assert_eq!(bal2.depositor, 4300);
    let out = withdraw(rec2, bal2, &dep, &prog, &auth, &vault, 701);
    assert!(matches!(out, Err(EscrowError::InsufficientFunds)));
}

#[test]
fn reset_time_lock_moves_the_window() {
    let (rec, bal) = funded();
    let auth = rec.authority;
    let vault = rec.vault;
    let dep = signer(DEPOSITOR);
    let prog = addr(PROGRAM);
    let out = reset_time_lock(rec.clone(), &dep, &prog, 50, 50);
    assert!(matches!(out, Err(EscrowError::WindowInvalid)));
    let out = reset_time_lock(rec.clone(), &signer(ACCEPTOR), &prog, NOW, NOW + 10);
    assert!(matches!(out, Err(EscrowError::OwnerMismatch)));
    let rec2 = reset_time_lock(rec, &dep, &prog, NOW, NOW + 10).expect("reset");
    assert_eq!(rec2.unlock_time, NOW);
    assert_eq!(rec2.timeout_time, NOW + 10);
    // The new window takes effect: settlement is now possible at once.
    let (rec3, _) = settle(
        rec2,
        bal,
        &config(),
        &dep,
        &prog,
        &auth,
        &vault,
        NOW,
        SettlementTerms::Exchange { amount: 1000 },
    )
    .expect("settle");
    assert_eq!(rec3.state, LifecycleState::Settled);
}

#[test]
fn admin_lifecycle_and_fee_withdrawal() {
    let out = init_admin(&signer(ADMIN), true);
    assert!(matches!(out, Err(EscrowError::AlreadyInitialized)));
    let unsigned = Caller { address: addr(ADMIN), is_signer: false };
    let out = init_admin(&unsigned, false);
    assert!(matches!(out, Err(EscrowError::SignerMissing)));
    let cfg = init_admin(&signer(ADMIN), false).expect("init_admin");
    assert!(cfg.initialized);
    assert_eq!(cfg.admin.bytes, addr(ADMIN).bytes);
    let out = withdraw_fees(&cfg, &signer(ADMIN), 100, 50, 60).expect("withdraw_fees");
    assert_eq!(out, (40, 110));
    let out = withdraw_fees(&cfg, &signer(ADMIN), 100, 50, 101);
    assert!(matches!(out, Err(EscrowError::InsufficientFunds)));
    let out = withdraw_fees(&cfg, &signer(DEPOSITOR), 100, 50, 60);
    assert!(matches!(out, Err(EscrowError::OwnerMismatch)));
}
