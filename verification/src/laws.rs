use vstd::prelude::*;

use crate::account::{Address, Caller};
use crate::engine::{
    spec_accept, spec_accept_constraints, spec_cancel, spec_cancel_constraints, spec_deposit,
    spec_deposit_constraints, spec_reclaim, spec_reclaim_constraints, spec_settle,
    spec_settle_amount_arg, spec_settle_constraints, spec_total, spec_vault_matches,
    spec_withdraw, spec_withdraw_constraints, Balances, SettlementTerms,
};
use crate::errors::EscrowError;
use crate::pda::{spec_derived_matches, SeedKind};
use crate::state::{
    spec_record_wf, spec_state_open, spec_state_terminal, AdminConfig, EscrowRecord,
    LifecycleState, ParticipantPosition,
};
use crate::validate::{
    lemma_all_hold_when_no_failure, lemma_first_failure_at, lemma_first_failure_none, spec_holds,
    Constraint,
};

verus! {

/// The derived-address gate of an operation: the supplied authority and
/// vault addresses both match their derivations under the record's program,
/// seeds and stored bumps.
pub open spec fn spec_custody_addresses_match(
    r: EscrowRecord,
    authority: Address,
    vault: Address,
) -> bool {
    &&& spec_derived_matches(
        authority,
        r.program_id,
        SeedKind::Authority { record_id: r.record_id },
        r.authority_bump,
    )
    &&& spec_derived_matches(
        vault,
        r.program_id,
        SeedKind::Vault { authority },
        r.vault_bump,
    )
}

/// A successful deposit conserves value: the record stays well formed, the
/// vault still carries exactly what the record says is in custody, and the
/// sum of all balances is unchanged.
pub proof fn lemma_deposit_preserves_value(
    r: EscrowRecord,
    b: Balances,
    caller: Caller,
    record_owner: Address,
    authority: Address,
    vault: Address,
    amount: u64,
    r1: EscrowRecord,
    b1: Balances,
)
    requires
        spec_record_wf(r),
        spec_vault_matches(r, b),
        spec_deposit(r, b, caller, record_owner, authority, vault, amount) == Ok::<
            (EscrowRecord, Balances),
            EscrowError,
        >((r1, b1)),
    ensures
        spec_record_wf(r1),
        spec_vault_matches(r1, b1),
        spec_total(b1) == spec_total(b),
{
    let cs = spec_deposit_constraints(r, b, caller, record_owner, authority, vault, amount);
    lemma_all_hold_when_no_failure(cs);
    assert(spec_holds(cs[3]));
    assert(spec_holds(cs[7]));
    assert(spec_holds(cs[8]));
}

/// A successful settlement conserves value: the sum of all balances,
/// including the fee vault, is the same before and after the atomic legs,
/// the vault is drained, and the record is settled.
pub proof fn lemma_settle_preserves_value(
    r: EscrowRecord,
    b: Balances,
    config: AdminConfig,
    caller: Caller,
    record_owner: Address,
    authority: Address,
    vault: Address,
    now: u64,
    terms: SettlementTerms,
    r1: EscrowRecord,
    b1: Balances,
)
    requires
        spec_record_wf(r),
        spec_vault_matches(r, b),
        spec_settle(r, b, config, caller, record_owner, authority, vault, now, terms) == Ok::<
            (EscrowRecord, Balances),
            EscrowError,
        >((r1, b1)),
    ensures
        spec_record_wf(r1),
        spec_vault_matches(r1, b1),
        spec_total(b1) == spec_total(b),
        b1.vault == 0,
        r1.state == LifecycleState::Settled,
{
    let cs = spec_settle_constraints(
        r,
        b,
        config,
        caller,
        record_owner,
        authority,
        vault,
        now,
        terms,
    );
    lemma_all_hold_when_no_failure(cs);
    assert(spec_holds(cs[3]));
    match terms {
        SettlementTerms::Exchange { amount } => {
            assert(spec_holds(cs[8]));
            assert(spec_holds(cs[9]));
            assert(spec_holds(cs[10]));
        },
        SettlementTerms::NetOfFee { winning_position, fee } => {
            assert(spec_holds(cs[9]));
            assert(spec_holds(cs[11]));
            assert(spec_holds(cs[12]));
            assert(spec_holds(cs[13]));
            assert(r.state == LifecycleState::Accepted);
        },
        SettlementTerms::DepositPlusWinnings { winning_position, winnings } => {
            assert(spec_holds(cs[8]));
            assert(spec_holds(cs[10]));
            assert(spec_holds(cs[11]));
            assert(spec_holds(cs[12]));
            assert(r.state == LifecycleState::Accepted);
        },
    }
}

/// Value conservation over a funding and settlement sequence: whenever a
/// deposit into a well-formed record succeeds and the result is then
/// settled, under any strategy, the sum of all balances at the end equals
/// the sum at the start, with the vault empty and the record settled.
pub proof fn lemma_fund_then_settle_conserves_value(
    r0: EscrowRecord,
    b0: Balances,
    caller: Caller,
    record_owner: Address,
    authority: Address,
    vault: Address,
    amount: u64,
    r1: EscrowRecord,
    b1: Balances,
    config: AdminConfig,
    caller2: Caller,
    record_owner2: Address,
    authority2: Address,
    vault2: Address,
    now: u64,
    terms: SettlementTerms,
    r2: EscrowRecord,
    b2: Balances,
)
    requires
        spec_record_wf(r0),
        spec_vault_matches(r0, b0),
        spec_deposit(r0, b0, caller, record_owner, authority, vault, amount) == Ok::<
            (EscrowRecord, Balances),
            EscrowError,
        >((r1, b1)),
        spec_settle(
            r1,
            b1,
            config,
            caller2,
            record_owner2,
            authority2,
            vault2,
            now,
            terms,
        ) == Ok::<(EscrowRecord, Balances), EscrowError>((r2, b2)),
    ensures
        spec_total(b2) == spec_total(b0),
        b2.vault == 0,
        r2.state == LifecycleState::Settled,
{
    lemma_deposit_preserves_value(
        r0,
        b0,
        caller,
        record_owner,
        authority,
        vault,
        amount,
        r1,
        b1,
    );
    lemma_settle_preserves_value(
        r1,
        b1,
        config,
        caller2,
        record_owner2,
        authority2,
        vault2,
        now,
        terms,
        r2,
        b2,
    );
}

/// Settling before the unlock time is rejected as too early, whatever the
/// settlement strategy, and nothing changes: with every gate ahead of the
/// clock check satisfied and `now` before the unlock time, `settle` returns
/// exactly `TooEarly`.
pub proof fn lemma_settle_too_early(
    r: EscrowRecord,
    b: Balances,
    config: AdminConfig,
    caller: Caller,
    record_owner: Address,
    authority: Address,
    vault: Address,
    now: u64,
    terms: SettlementTerms,
)
    requires
        spec_settle_amount_arg(terms) > 0,
        caller.is_signer,
        record_owner@ == r.program_id@,
        spec_state_open(r.state),
        spec_custody_addresses_match(r, authority, vault),
        now < r.unlock_time,
    ensures
        spec_settle(r, b, config, caller, record_owner, authority, vault, now, terms) == Err::<
            (EscrowRecord, Balances),
            EscrowError,
        >(EscrowError::TooEarly),
{
    let cs = spec_settle_constraints(
        r,
        b,
        config,
        caller,
        record_owner,
        authority,
        vault,
        now,
        terms,
    );
    assert(spec_holds(cs[0]));
    assert(spec_holds(cs[1]));
    assert(spec_holds(cs[2]));
    assert(spec_holds(cs[3]));
    assert(spec_holds(cs[4]));
    assert(spec_holds(cs[5]));
    assert(!spec_holds(cs[6]));
    lemma_first_failure_at(cs, 6);
}

/// Settling at or after the timeout time is rejected as expired, whatever
/// the settlement strategy, and nothing changes; only `reclaim` can succeed
/// from then on.
pub proof fn lemma_settle_expired(
    r: EscrowRecord,
    b: Balances,
    config: AdminConfig,
    caller: Caller,
    record_owner: Address,
    authority: Address,
    vault: Address,
    now: u64,
    terms: SettlementTerms,
)
    requires
        spec_record_wf(r),
        spec_settle_amount_arg(terms) > 0,
        caller.is_signer,
        record_owner@ == r.program_id@,
        spec_state_open(r.state),
        spec_custody_addresses_match(r, authority, vault),
        now >= r.timeout_time,
    ensures
        spec_settle(r, b, config, caller, record_owner, authority, vault, now, terms) == Err::<
            (EscrowRecord, Balances),
            EscrowError,
        >(EscrowError::Expired),
{
    let cs = spec_settle_constraints(
        r,
        b,
        config,
        caller,
        record_owner,
        authority,
        vault,
        now,
        terms,
    );
    assert(spec_holds(cs[0]));
    assert(spec_holds(cs[1]));
    assert(spec_holds(cs[2]));
    assert(spec_holds(cs[3]));
    assert(spec_holds(cs[4]));
    assert(spec_holds(cs[5]));
    assert(spec_holds(cs[6]));
    assert(!spec_holds(cs[7]));
    lemma_first_failure_at(cs, 7);
}

/// A terminal record admits no settlement: once a record is `Settled`,
/// `Cancelled` or `Expired`, `settle` is rejected as an illegal state
/// transition.
pub proof fn lemma_settle_after_terminal(
    r: EscrowRecord,
    b: Balances,
    config: AdminConfig,
    caller: Caller,
    record_owner: Address,
    authority: Address,
    vault: Address,
    now: u64,
    terms: SettlementTerms,
)
    requires
        spec_settle_amount_arg(terms) > 0,
        caller.is_signer,
        record_owner@ == r.program_id@,
        spec_state_terminal(r.state),
    ensures
        spec_settle(r, b, config, caller, record_owner, authority, vault, now, terms) == Err::<
            (EscrowRecord, Balances),
            EscrowError,
        >(EscrowError::IllegalStateTransition),
{
    let cs = spec_settle_constraints(
        r,
        b,
        config,
        caller,
        record_owner,
        authority,
        vault,
        now,
        terms,
    );
    assert(spec_holds(cs[0]));
    assert(spec_holds(cs[1]));
    assert(spec_holds(cs[2]));
    assert(!spec_holds(cs[3]));
    lemma_first_failure_at(cs, 3);
}

/// After the timeout, the depositor is owed its refund: with the gates
/// satisfied and the clock at or past the timeout time, `reclaim` succeeds,
/// returns the whole custody to the depositor, and the record expires.
pub proof fn lemma_reclaim_succeeds_after_expiry(
    r: EscrowRecord,
    b: Balances,
    caller: Caller,
    record_owner: Address,
    authority: Address,
    vault: Address,
    now: u64,
)
    requires
        spec_record_wf(r),
        spec_vault_matches(r, b),
        caller.is_signer,
        record_owner@ == r.program_id@,
        spec_state_open(r.state),
        caller.address@ == r.depositor@,
        spec_custody_addresses_match(r, authority, vault),
        now >= r.timeout_time,
        b.depositor + r.deposited_amount + r.accepted_amount <= u64::MAX,
    ensures
        spec_reclaim(r, b, caller, record_owner, authority, vault, now) matches Ok(p)
            && p.0.state == LifecycleState::Expired && p.1.vault == 0 && p.1.depositor
            == b.depositor + r.deposited_amount + r.accepted_amount,
{
    let cs = spec_reclaim_constraints(r, b, caller, record_owner, authority, vault, now);
    assert forall|j: int| 0 <= j < cs.len() implies spec_holds(#[trigger] cs[j]) by {
        assert(spec_holds(cs[0]));
        assert(spec_holds(cs[1]));
        assert(spec_holds(cs[2]));
        assert(spec_holds(cs[3]));
        assert(spec_holds(cs[4]));
        assert(spec_holds(cs[5]));
        assert(spec_holds(cs[6]));
        assert(spec_holds(cs[7]));
    }
    lemma_first_failure_none(cs);
}

/// The terminal states are terminal: once a record is `Settled`,
/// `Cancelled` or `Expired`, every operation that would move value or
/// change its state is rejected as an illegal state transition.
pub proof fn lemma_terminal_states_admit_no_transition(
    r: EscrowRecord,
    b: Balances,
    config: AdminConfig,
    caller: Caller,
    record_owner: Address,
    authority: Address,
    vault: Address,
    amount: u64,
    position: Option<ParticipantPosition>,
    now: u64,
    terms: SettlementTerms,
)
    requires
        spec_state_terminal(r.state),
        amount > 0,
        spec_settle_amount_arg(terms) > 0,
        caller.is_signer,
        record_owner@ == r.program_id@,
    ensures
        spec_deposit(r, b, caller, record_owner, authority, vault, amount) == Err::<
            (EscrowRecord, Balances),
            EscrowError,
        >(EscrowError::IllegalStateTransition),
        spec_accept(r, b, caller, record_owner, authority, vault, amount, position) == Err::<
            (EscrowRecord, Balances),
            EscrowError,
        >(EscrowError::IllegalStateTransition),
        spec_withdraw(r, b, caller, record_owner, authority, vault, amount) == Err::<
            (EscrowRecord, Balances),
            EscrowError,
        >(EscrowError::IllegalStateTransition),
        spec_cancel(r, b, caller, record_owner, authority, vault) == Err::<
            (EscrowRecord, Balances),
            EscrowError,
        >(EscrowError::IllegalStateTransition),
        spec_reclaim(r, b, caller, record_owner, authority, vault, now) == Err::<
            (EscrowRecord, Balances),
            EscrowError,
        >(EscrowError::IllegalStateTransition),
        spec_settle(r, b, config, caller, record_owner, authority, vault, now, terms) == Err::<
            (EscrowRecord, Balances),
            EscrowError,
        >(EscrowError::IllegalStateTransition),
{
    let dcs = spec_deposit_constraints(r, b, caller, record_owner, authority, vault, amount);
    assert(spec_holds(dcs[0]));
    assert(spec_holds(dcs[1]));
    assert(spec_holds(dcs[2]));
    assert(!spec_holds(dcs[3]));
    lemma_first_failure_at(dcs, 3);
    let acs = spec_accept_constraints(
        r,
        b,
        caller,
        record_owner,
        authority,
        vault,
        amount,
        position,
    );
    assert(spec_holds(acs[0]));
    assert(spec_holds(acs[1]));
    assert(spec_holds(acs[2]));
    assert(!spec_holds(acs[3]));
    lemma_first_failure_at(acs, 3);
    let wcs = spec_withdraw_constraints(r, b, caller, record_owner, authority, vault, amount);
    assert(spec_holds(wcs[0]));
    assert(spec_holds(wcs[1]));
    assert(spec_holds(wcs[2]));
    assert(!spec_holds(wcs[3]));
    lemma_first_failure_at(wcs, 3);
    let ccs = spec_cancel_constraints(r, b, caller, record_owner, authority, vault);
    assert(spec_holds(ccs[0]));
    assert(spec_holds(ccs[1]));
    assert(!spec_holds(ccs[2]));
    lemma_first_failure_at(ccs, 2);
    let rcs = spec_reclaim_constraints(r, b, caller, record_owner, authority, vault, now);
    assert(spec_holds(rcs[0]));
    assert(spec_holds(rcs[1]));
    assert(!spec_holds(rcs[2]));
    lemma_first_failure_at(rcs, 2);
    let scs = spec_settle_constraints(
        r,
        b,
        config,
        caller,
        record_owner,
        authority,
        vault,
        now,
        terms,
    );
    assert(spec_holds(scs[0]));
    assert(spec_holds(scs[1]));
    assert(spec_holds(scs[2]));
    assert(!spec_holds(scs[3]));
    lemma_first_failure_at(scs, 3);
}

/// Cancelling is not repeatable: after a cancellation succeeds, a second
/// `cancel` on the resulting record is rejected as an illegal state
/// transition, whoever submits it and whatever balances and addresses it
/// names.  There is no double refund.
pub proof fn lemma_cancel_not_repeatable(
    r: EscrowRecord,
    b: Balances,
    caller: Caller,
    record_owner: Address,
    authority: Address,
    vault: Address,
    r2: EscrowRecord,
    b2: Balances,
    b3: Balances,
    caller2: Caller,
    record_owner2: Address,
    authority2: Address,
    vault2: Address,
)
    requires
        spec_cancel(r, b, caller, record_owner, authority, vault) == Ok::<
            (EscrowRecord, Balances),
            EscrowError,
        >((r2, b2)),
        caller2.is_signer,
        record_owner2@ == r2.program_id@,
    ensures
        spec_cancel(r2, b3, caller2, record_owner2, authority2, vault2) == Err::<
            (EscrowRecord, Balances),
            EscrowError,
        >(EscrowError::IllegalStateTransition),
{
    assert(r2.state == LifecycleState::Cancelled);
    let cs = spec_cancel_constraints(r2, b3, caller2, record_owner2, authority2, vault2);
    assert(spec_holds(cs[0]));
    assert(spec_holds(cs[1]));
    assert(!spec_holds(cs[2]));
    lemma_first_failure_at(cs, 2);
}

/// A deposit naming a vault or authority address that does not match its
/// derivation is rejected with `AuthorityMismatch`, with every earlier gate
/// satisfied.
pub proof fn lemma_deposit_forged_authority(
    r: EscrowRecord,
    b: Balances,
    caller: Caller,
    record_owner: Address,
    authority: Address,
    vault: Address,
    amount: u64,
)
    requires
        amount > 0,
        caller.is_signer,
        record_owner@ == r.program_id@,
        r.state == LifecycleState::Funded,
        caller.address@ == r.depositor@,
        !spec_custody_addresses_match(r, authority, vault),
    ensures
        spec_deposit(r, b, caller, record_owner, authority, vault, amount) == Err::<
            (EscrowRecord, Balances),
            EscrowError,
        >(EscrowError::AuthorityMismatch),
{
    let cs = spec_deposit_constraints(r, b, caller, record_owner, authority, vault, amount);
    assert(spec_holds(cs[0]));
    assert(spec_holds(cs[1]));
    assert(spec_holds(cs[2]));
    assert(spec_holds(cs[3]));
    assert(spec_holds(cs[4]));
    if !spec_holds(cs[5]) {
        lemma_first_failure_at(cs, 5);
    } else {
        assert(!spec_holds(cs[6]));
        lemma_first_failure_at(cs, 6);
    }
}

/// An acceptance naming a vault or authority address that does not match
/// its derivation is rejected with `AuthorityMismatch`, with every earlier
/// gate satisfied.
pub proof fn lemma_accept_forged_authority(
    r: EscrowRecord,
    b: Balances,
    caller: Caller,
    record_owner: Address,
    authority: Address,
    vault: Address,
    amount: u64,
    position: Option<ParticipantPosition>,
)
    requires
        amount > 0,
        caller.is_signer,
        record_owner@ == r.program_id@,
        r.state == LifecycleState::Funded,
        caller.address@ != r.depositor@,
        spec_holds(
            Constraint::OppositePositions { first: r.first_position, second: position },
        ),
        amount == r.accept_amount,
        !spec_custody_addresses_match(r, authority, vault),
    ensures
        spec_accept(r, b, caller, record_owner, authority, vault, amount, position) == Err::<
            (EscrowRecord, Balances),
            EscrowError,
        >(EscrowError::AuthorityMismatch),
{
    let cs = spec_accept_constraints(
        r,
        b,
        caller,
        record_owner,
        authority,
        vault,
        amount,
        position,
    );
    assert(spec_holds(cs[0]));
    assert(spec_holds(cs[1]));
    assert(spec_holds(cs[2]));
    assert(spec_holds(cs[3]));
    assert(spec_holds(cs[4]));
    assert(spec_holds(cs[5]));
    assert(spec_holds(cs[6]));
    if !spec_holds(cs[7]) {
        lemma_first_failure_at(cs, 7);
    } else {
        assert(!spec_holds(cs[8]));
        lemma_first_failure_at(cs, 8);
    }
}

/// A settlement naming a vault or authority address that does not match its
/// derivation is rejected with `AuthorityMismatch`, whatever the strategy,
/// with every earlier gate satisfied.
pub proof fn lemma_settle_forged_authority(
    r: EscrowRecord,
    b: Balances,
    config: AdminConfig,
    caller: Caller,
    record_owner: Address,
    authority: Address,
    vault: Address,
    now: u64,
    terms: SettlementTerms,
)
    requires
        spec_settle_amount_arg(terms) > 0,
        caller.is_signer,
        record_owner@ == r.program_id@,
        spec_state_open(r.state),
        !spec_custody_addresses_match(r, authority, vault),
    ensures
        spec_settle(r, b, config, caller, record_owner, authority, vault, now, terms) == Err::<
            (EscrowRecord, Balances),
            EscrowError,
        >(EscrowError::AuthorityMismatch),
{
    let cs = spec_settle_constraints(
        r,
        b,
        config,
        caller,
        record_owner,
        authority,
        vault,
        now,
        terms,
    );
    assert(spec_holds(cs[0]));
    assert(spec_holds(cs[1]));
    assert(spec_holds(cs[2]));
    assert(spec_holds(cs[3]));
    if !spec_holds(cs[4]) {
        lemma_first_failure_at(cs, 4);
    } else {
        assert(!spec_holds(cs[5]));
        lemma_first_failure_at(cs, 5);
    }
}

/// A cancellation naming a vault or authority address that does not match
/// its derivation is rejected with `AuthorityMismatch`, with every earlier
/// gate satisfied.
pub proof fn lemma_cancel_forged_authority(
    r: EscrowRecord,
    b: Balances,
    caller: Caller,
    record_owner: Address,
    authority: Address,
    vault: Address,
)
    requires
        caller.is_signer,
        record_owner@ == r.program_id@,
        spec_state_open(r.state),
        caller.address@ == r.depositor@,
        !spec_custody_addresses_match(r, authority, vault),
    ensures
        spec_cancel(r, b, caller, record_owner, authority, vault) == Err::<
            (EscrowRecord, Balances),
            EscrowError,
        >(EscrowError::AuthorityMismatch),
{
    let cs = spec_cancel_constraints(r, b, caller, record_owner, authority, vault);
    assert(spec_holds(cs[0]));
    assert(spec_holds(cs[1]));
    assert(spec_holds(cs[2]));
    assert(spec_holds(cs[3]));
    if !spec_holds(cs[4]) {
        lemma_first_failure_at(cs, 4);
    } else {
        assert(!spec_holds(cs[5]));
        lemma_first_failure_at(cs, 5);
    }
}

/// A reclaim naming a vault or authority address that does not match its
/// derivation is rejected with `AuthorityMismatch`, with every earlier gate
/// satisfied.
pub proof fn lemma_reclaim_forged_authority(
    r: EscrowRecord,
    b: Balances,
    caller: Caller,
    record_owner: Address,
    authority: Address,
    vault: Address,
    now: u64,
)
    requires
        caller.is_signer,
        record_owner@ == r.program_id@,
        spec_state_open(r.state),
        caller.address@ == r.depositor@,
        !spec_custody_addresses_match(r, authority, vault),
    ensures
        spec_reclaim(r, b, caller, record_owner, authority, vault, now) == Err::<
            (EscrowRecord, Balances),
            EscrowError,
        >(EscrowError::AuthorityMismatch),
{
    let cs = spec_reclaim_constraints(r, b, caller, record_owner, authority, vault, now);
    assert(spec_holds(cs[0]));
    assert(spec_holds(cs[1]));
    assert(spec_holds(cs[2]));
    assert(spec_holds(cs[3]));
    if !spec_holds(cs[4]) {
        lemma_first_failure_at(cs, 4);
    } else {
        assert(!spec_holds(cs[5]));
        lemma_first_failure_at(cs, 5);
    }
}

/// A withdrawal naming a vault or authority address that does not match its
/// derivation is rejected with `AuthorityMismatch`, with every earlier gate
/// satisfied.
pub proof fn lemma_withdraw_forged_authority(
    r: EscrowRecord,
    b: Balances,
    caller: Caller,
    record_owner: Address,
    authority: Address,
    vault: Address,
    amount: u64,
)
    requires
        amount > 0,
        caller.is_signer,
        record_owner@ == r.program_id@,
        r.state == LifecycleState::Funded,
        caller.address@ == r.depositor@,
        !spec_custody_addresses_match(r, authority, vault),
    ensures
        spec_withdraw(r, b, caller, record_owner, authority, vault, amount) == Err::<
            (EscrowRecord, Balances),
            EscrowError,
        >(EscrowError::AuthorityMismatch),
{
    let cs = spec_withdraw_constraints(r, b, caller, record_owner, authority, vault, amount);
    assert(spec_holds(cs[0]));
    assert(spec_holds(cs[1]));
    assert(spec_holds(cs[2]));
    assert(spec_holds(cs[3]));
    assert(spec_holds(cs[4]));
    if !spec_holds(cs[5]) {
        lemma_first_failure_at(cs, 5);
    } else {
        assert(!spec_holds(cs[6]));
        lemma_first_failure_at(cs, 6);
    }
}

} // verus!
