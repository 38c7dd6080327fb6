use escrow_engine::account::Address;
use escrow_engine::errors::EscrowError;
use escrow_engine::state::{LifecycleState, ParticipantPosition};
use escrow_engine::timelock::{is_expired, is_unlocked};
use escrow_engine::validate::{validate, Constraint};

fn addr(n: u8) -> Address {
    Address { bytes: [n; 32] }
}

#[test]
fn validate_accepts_an_all_true_list() {
    let cs = vec![
        Constraint::AmountPositive { amount: 5 },
        Constraint::SignerPresent { signer: true },
        Constraint::StateIsOpen { state: LifecycleState::Accepted },
        Constraint::IdentityMatch { actual: addr(1), expected: addr(1) },
        Constraint::AmountEquals { amount: 7, expected: 7 },
        Constraint::SumFits { a: u64::MAX - 1, b: 1 },
    ];
    assert!(validate(&cs).is_ok());
}

#[test]
fn validate_reports_the_first_failure_in_order() {
    // Both predicates fail; the first in the list decides the error.
    let cs = vec![
        Constraint::AmountPositive { amount: 0 },
        Constraint::SignerPresent { signer: false },
    ];
    assert_eq!(validate(&cs), Err(EscrowError::AmountInvalid));
    let cs = vec![
        Constraint::SignerPresent { signer: false },
        Constraint::AmountPositive { amount: 0 },
    ];
    assert_eq!(validate(&cs), Err(EscrowError::SignerMissing));
}

#[test]
fn validate_maps_each_predicate_to_its_error() {
    let failing = [
        (Constraint::AmountPositive { amount: 0 }, EscrowError::AmountInvalid),
        (Constraint::SignerPresent { signer: false }, EscrowError::SignerMissing),
        (
            Constraint::RecordOwnerMatch { owner: addr(1), program_id: addr(2) },
            EscrowError::OwnerMismatch,
        ),
        (
            Constraint::StateIsFunded { state: LifecycleState::Settled },
            EscrowError::IllegalStateTransition,
        ),
        (
            Constraint::StateIsOpen { state: LifecycleState::Cancelled },
            EscrowError::IllegalStateTransition,
        ),
        (
            Constraint::IdentityMatch { actual: addr(1), expected: addr(2) },
            EscrowError::OwnerMismatch,
        ),
        (
            Constraint::IdentityDistinct { actual: addr(1), excluded: addr(1) },
            EscrowError::CounterpartyInvalid,
        ),
        (
            Constraint::OppositePositions {
                first: Some(ParticipantPosition::Long),
                second: Some(ParticipantPosition::Long),
            },
            EscrowError::PositionInvalid,
        ),
        (
            Constraint::BothPositionsDeclared {
                first: Some(ParticipantPosition::Long),
                second: None,
            },
            EscrowError::PositionInvalid,
        ),
        (Constraint::Unlocked { now: 5, unlock_time: 10 }, EscrowError::TooEarly),
        (Constraint::NotExpired { now: 10, timeout_time: 10 }, EscrowError::Expired),
        (Constraint::AlreadyExpired { now: 9, timeout_time: 10 }, EscrowError::TooEarly),
        (Constraint::AmountEquals { amount: 1, expected: 2 }, EscrowError::AmountInvalid),
        (
            Constraint::AmountWithinTarget { amount: 3, headroom: 2 },
            EscrowError::AmountInvalid,
        ),
        (
            Constraint::FundsSufficient { amount: 3, available: 2 },
            EscrowError::InsufficientFunds,
        ),
        (Constraint::FeeBelowTotal { fee: 2, total: 2 }, EscrowError::AmountInvalid),
        (Constraint::SumFits { a: u64::MAX, b: 1 }, EscrowError::AmountOverflow),
        (Constraint::WindowWellFormed { unlock: 9, timeout: 9 }, EscrowError::WindowInvalid),
        (Constraint::ConfigInitialized { flag: false }, EscrowError::NotInitialized),
        (Constraint::ConfigFresh { flag: true }, EscrowError::AlreadyInitialized),
    ];
    for (c, e) in failing {
        assert_eq!(validate(&vec![c]), Err(e));
    }
}

#[test]
fn opposite_positions_allow_the_positionless_variant() {
    let cs = vec![Constraint::OppositePositions { first: None, second: None }];
    assert!(validate(&cs).is_ok());
    let cs = vec![
        Constraint::OppositePositions {
            first: Some(ParticipantPosition::Long),
            second: Some(ParticipantPosition::Short),
        },
    ];
    assert!(validate(&cs).is_ok());
    let cs = vec![
        Constraint::OppositePositions { first: Some(ParticipantPosition::Long), second: None },
    ];
    assert_eq!(validate(&cs), Err(EscrowError::PositionInvalid));
}

#[test]
fn time_window_boundaries_are_half_open() {
    assert!(!is_unlocked(99, 100));
    assert!(is_unlocked(100, 100));
    assert!(is_unlocked(101, 100));
    assert!(!is_expired(999, 1000));
    assert!(is_expired(1000, 1000));
    assert!(is_expired(1001, 1000));
}
