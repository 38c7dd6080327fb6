use vstd::prelude::*;

use crate::account::{address_eq, Address};
use crate::errors::EscrowError;
use crate::pda::{spec_derived_matches, verify_derived, SeedKind};
use crate::state::{spec_state_open, LifecycleState, ParticipantPosition};
use crate::timelock::{is_expired, is_unlocked, spec_is_expired, spec_is_unlocked};

verus! {

/// One predicate of the declarative constraint layer.
///
/// Every mutating operation names its preconditions as an ordered list of
/// these, evaluated by `validate` before any state mutation; evaluation
/// short-circuits on the first failing predicate and reports it.  Each
/// constraint carries the values it judges, so that what was checked is
/// exactly what the instruction supplied.
pub enum Constraint {
    /// The amount is strictly positive.
    AmountPositive { amount: u64 },
    /// The account required to approve the instruction signed it.
    SignerPresent { signer: bool },
    /// The record is owned by the program asked to mutate it.
    RecordOwnerMatch { owner: Address, program_id: Address },
    /// The record is in `Funded`.
    StateIsFunded { state: LifecycleState },
    /// The record is in `Funded` or `Accepted`.
    StateIsOpen { state: LifecycleState },
    /// The acting identity is the expected one.
    IdentityMatch { actual: Address, expected: Address },
    /// The acting identity differs from an excluded one.
    IdentityDistinct { actual: Address, excluded: Address },
    /// The two declared positions oppose each other.
    OppositePositions {
        first: Option<ParticipantPosition>,
        second: Option<ParticipantPosition>,
    },
    /// Both parties have declared a position.
    BothPositionsDeclared {
        first: Option<ParticipantPosition>,
        second: Option<ParticipantPosition>,
    },
    /// The supplied address equals the derivation for `seeds` and `bump`
    /// under `program_id`.
    DerivedAddressMatch { expected: Address, program_id: Address, seeds: SeedKind, bump: u8 },
    /// The clock has reached the unlock time.
    Unlocked { now: u64, unlock_time: u64 },
    /// The clock has not reached the timeout time.
    NotExpired { now: u64, timeout_time: u64 },
    /// The clock has reached the timeout time.
    AlreadyExpired { now: u64, timeout_time: u64 },
    /// The amount equals the protocol's expected amount exactly.
    AmountEquals { amount: u64, expected: u64 },
    /// The amount fits under the funding target's remaining headroom.
    AmountWithinTarget { amount: u64, headroom: u64 },
    /// The paying account can cover the amount.
    FundsSufficient { amount: u64, available: u64 },
    /// The skimmed fee is strictly below the total in custody.
    FeeBelowTotal { fee: u64, total: u64 },
    /// The sum of two balances fits in a 64-bit amount.
    SumFits { a: u64, b: u64 },
    /// The unlock boundary precedes the timeout boundary.
    WindowWellFormed { unlock: u64, timeout: u64 },
    /// The administrative configuration was initialized.
    ConfigInitialized { flag: bool },
    /// The administrative configuration was not yet initialized.
    ConfigFresh { flag: bool },
}

/// What a constraint asserts.
pub open spec fn spec_holds(c: Constraint) -> bool {
    match c {
        Constraint::AmountPositive { amount } => amount > 0,
        Constraint::SignerPresent { signer } => signer,
        Constraint::RecordOwnerMatch { owner, program_id } => owner@ == program_id@,
        Constraint::StateIsFunded { state } => state == LifecycleState::Funded,
        Constraint::StateIsOpen { state } => spec_state_open(state),
        Constraint::IdentityMatch { actual, expected } => actual@ == expected@,
        Constraint::IdentityDistinct { actual, excluded } => actual@ != excluded@,
        Constraint::OppositePositions { first, second } => match (first, second) {
            (Option::None, Option::None) => true,
            (Option::Some(f), Option::Some(s)) => f != s,
            _ => false,
        },
        Constraint::BothPositionsDeclared { first, second } => first is Some && second is Some,
        Constraint::DerivedAddressMatch { expected, program_id, seeds, bump } =>
            spec_derived_matches(expected, program_id, seeds, bump),
        Constraint::Unlocked { now, unlock_time } => spec_is_unlocked(now, unlock_time),
        Constraint::NotExpired { now, timeout_time } => !spec_is_expired(now, timeout_time),
        Constraint::AlreadyExpired { now, timeout_time } => spec_is_expired(now, timeout_time),
        Constraint::AmountEquals { amount, expected } => amount == expected,
        Constraint::AmountWithinTarget { amount, headroom } => amount <= headroom,
        Constraint::FundsSufficient { amount, available } => amount <= available,
        Constraint::FeeBelowTotal { fee, total } => fee < total,
        Constraint::SumFits { a, b } => a + b <= u64::MAX,
        Constraint::WindowWellFormed { unlock, timeout } => unlock < timeout,
        Constraint::ConfigInitialized { flag } => flag,
        Constraint::ConfigFresh { flag } => !flag,
    }
}

/// The tagged error a failing constraint reports.
pub open spec fn spec_error_of(c: Constraint) -> EscrowError {
    match c {
        Constraint::AmountPositive { .. } => EscrowError::AmountInvalid,
        Constraint::SignerPresent { .. } => EscrowError::SignerMissing,
        Constraint::RecordOwnerMatch { .. } => EscrowError::OwnerMismatch,
        Constraint::StateIsFunded { .. } => EscrowError::IllegalStateTransition,
        Constraint::StateIsOpen { .. } => EscrowError::IllegalStateTransition,
        Constraint::IdentityMatch { .. } => EscrowError::OwnerMismatch,
        Constraint::IdentityDistinct { .. } => EscrowError::CounterpartyInvalid,
        Constraint::OppositePositions { .. } => EscrowError::PositionInvalid,
        Constraint::BothPositionsDeclared { .. } => EscrowError::PositionInvalid,
        Constraint::DerivedAddressMatch { .. } => EscrowError::AuthorityMismatch,
        Constraint::Unlocked { .. } => EscrowError::TooEarly,
        Constraint::NotExpired { .. } => EscrowError::Expired,
        Constraint::AlreadyExpired { .. } => EscrowError::TooEarly,
        Constraint::AmountEquals { .. } => EscrowError::AmountInvalid,
        Constraint::AmountWithinTarget { .. } => EscrowError::AmountInvalid,
        Constraint::FundsSufficient { .. } => EscrowError::InsufficientFunds,
        Constraint::FeeBelowTotal { .. } => EscrowError::AmountInvalid,
        Constraint::SumFits { .. } => EscrowError::AmountOverflow,
        Constraint::WindowWellFormed { .. } => EscrowError::WindowInvalid,
        Constraint::ConfigInitialized { .. } => EscrowError::NotInitialized,
        Constraint::ConfigFresh { .. } => EscrowError::AlreadyInitialized,
    }
}

/// The first constraint of `cs` that does not hold, in order, if any.
pub open spec fn spec_first_failure(cs: Seq<Constraint>) -> Option<Constraint>
    decreases cs.len(),
{
    if cs.len() == 0 {
        None
    } else if !spec_holds(cs[0]) {
        Some(cs[0])
    } else {
        spec_first_failure(cs.drop_first())
    }
}

/// What `validate` decides for an ordered constraint list.
pub open spec fn spec_validate(cs: Seq<Constraint>) -> Result<(), EscrowError> {
    match spec_first_failure(cs) {
        None => Ok(()),
        Some(c) => Err(spec_error_of(c)),
    }
}

/// If everything before position `i` holds and `cs[i]` fails, then `cs[i]`
/// is the first failure.
pub proof fn lemma_first_failure_at(cs: Seq<Constraint>, i: int)
    requires
        0 <= i < cs.len(),
        forall|j: int| 0 <= j < i ==> spec_holds(#[trigger] cs[j]),
        !spec_holds(cs[i]),
    ensures
        spec_first_failure(cs) == Some(cs[i]),
    decreases i,
{
    if i > 0 {
        lemma_first_failure_at(cs.drop_first(), i - 1);
    }
}

/// If every constraint holds, there is no first failure.
pub proof fn lemma_first_failure_none(cs: Seq<Constraint>)
    requires
        forall|j: int| 0 <= j < cs.len() ==> spec_holds(#[trigger] cs[j]),
    ensures
        spec_first_failure(cs) is None,
    decreases cs.len(),
{
    if cs.len() > 0 {
        lemma_first_failure_none(cs.drop_first());
    }
}

/// If there is no first failure, every constraint holds.
pub proof fn lemma_all_hold_when_no_failure(cs: Seq<Constraint>)
    requires
        spec_first_failure(cs) is None,
    ensures
        forall|j: int| 0 <= j < cs.len() ==> spec_holds(#[trigger] cs[j]),
    decreases cs.len(),
{
    if cs.len() > 0 {
        lemma_all_hold_when_no_failure(cs.drop_first());
        assert forall|j: int| 0 <= j < cs.len() implies spec_holds(#[trigger] cs[j]) by {
            if j > 0 {
                assert(spec_holds(cs.drop_first()[j - 1]));
            }
        }
    }
}

/// Evaluates one constraint.
pub fn check_constraint(c: &Constraint) -> (r: bool)
    ensures
        r == spec_holds(*c),
{
    match c {
        Constraint::AmountPositive { amount } => *amount > 0,
        Constraint::SignerPresent { signer } => *signer,
        Constraint::RecordOwnerMatch { owner, program_id } => address_eq(owner, program_id),
        Constraint::StateIsFunded { state } => *state == LifecycleState::Funded,
        Constraint::StateIsOpen { state } => *state == LifecycleState::Funded || *state
            == LifecycleState::Accepted,
        Constraint::IdentityMatch { actual, expected } => address_eq(actual, expected),
        Constraint::IdentityDistinct { actual, excluded } => !address_eq(actual, excluded),
        Constraint::OppositePositions { first, second } => match (first, second) {
            (Option::None, Option::None) => true,
            (Option::Some(f), Option::Some(s)) => *f != *s,
            _ => false,
        },
        Constraint::BothPositionsDeclared { first, second } => first.is_some()
            && second.is_some(),
        Constraint::DerivedAddressMatch { expected, program_id, seeds, bump } => verify_derived(
            expected,
            program_id,
            seeds,
            *bump,
        ),
        Constraint::Unlocked { now, unlock_time } => is_unlocked(*now, *unlock_time),
        Constraint::NotExpired { now, timeout_time } => !is_expired(*now, *timeout_time),
        Constraint::AlreadyExpired { now, timeout_time } => is_expired(*now, *timeout_time),
        Constraint::AmountEquals { amount, expected } => *amount == *expected,
        Constraint::AmountWithinTarget { amount, headroom } => *amount <= *headroom,
        Constraint::FundsSufficient { amount, available } => *amount <= *available,
        Constraint::FeeBelowTotal { fee, total } => *fee < *total,
        Constraint::SumFits { a, b } => *a <= u64::MAX - *b,
        Constraint::WindowWellFormed { unlock, timeout } => *unlock < *timeout,
        Constraint::ConfigInitialized { flag } => *flag,
        Constraint::ConfigFresh { flag } => !*flag,
    }
}

/// The tagged error of a constraint, as `validate` reports it.
pub fn constraint_error(c: &Constraint) -> (e: EscrowError)
    ensures
        e == spec_error_of(*c),
{
    match c {
        Constraint::AmountPositive { .. } => EscrowError::AmountInvalid,
        Constraint::SignerPresent { .. } => EscrowError::SignerMissing,
        Constraint::RecordOwnerMatch { .. } => EscrowError::OwnerMismatch,
        Constraint::StateIsFunded { .. } => EscrowError::IllegalStateTransition,
        Constraint::StateIsOpen { .. } => EscrowError::IllegalStateTransition,
        Constraint::IdentityMatch { .. } => EscrowError::OwnerMismatch,
        Constraint::IdentityDistinct { .. } => EscrowError::CounterpartyInvalid,
        Constraint::OppositePositions { .. } => EscrowError::PositionInvalid,
        Constraint::BothPositionsDeclared { .. } => EscrowError::PositionInvalid,
        Constraint::DerivedAddressMatch { .. } => EscrowError::AuthorityMismatch,
        Constraint::Unlocked { .. } => EscrowError::TooEarly,
        Constraint::NotExpired { .. } => EscrowError::Expired,
        Constraint::AlreadyExpired { .. } => EscrowError::TooEarly,
        Constraint::AmountEquals { .. } => EscrowError::AmountInvalid,
        Constraint::AmountWithinTarget { .. } => EscrowError::AmountInvalid,
        Constraint::FundsSufficient { .. } => EscrowError::InsufficientFunds,
        Constraint::FeeBelowTotal { .. } => EscrowError::AmountInvalid,
        Constraint::SumFits { .. } => EscrowError::AmountOverflow,
        Constraint::WindowWellFormed { .. } => EscrowError::WindowInvalid,
        Constraint::ConfigInitialized { .. } => EscrowError::NotInitialized,
        Constraint::ConfigFresh { .. } => EscrowError::AlreadyInitialized,
    }
}

/// Evaluates an ordered constraint list: `Ok` when every predicate holds,
/// otherwise the error of the first that fails.  No side effect occurs here;
/// this call precedes every mutating operation of the engine.
pub fn validate(cs: &Vec<Constraint>) -> (r: Result<(), EscrowError>)
    ensures
        r == spec_validate(cs@),
        r is Ok ==> forall|j: int| 0 <= j < cs@.len() ==> spec_holds(#[trigger] cs@[j]),
{
    let mut i: usize = 0;
    while i < cs.len()
        invariant
            i <= cs@.len(),
            forall|j: int| 0 <= j < i ==> spec_holds(#[trigger] cs@[j]),
        decreases cs@.len() - i,
    {
        if !check_constraint(&cs[i]) {
            proof {
                lemma_first_failure_at(cs@, i as int);
            }
            return Err(constraint_error(&cs[i]));
        }
        i += 1;
    }
    proof {
        lemma_first_failure_none(cs@);
    }
    Ok(())
}

} // verus!
