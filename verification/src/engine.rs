use vstd::prelude::*;

use crate::account::{Address, Caller};
use crate::errors::EscrowError;
use crate::pda::{authority_seed_seqs, find_derived_address, spec_find_bump, vault_seed_seqs, SeedKind};
use crate::state::{
    metadata_valid, spec_in_custody, spec_metadata_valid, spec_record_wf, spec_state_open,
    AdminConfig, EscrowRecord, LifecycleState, ParticipantPosition,
};
use crate::timelock::{spec_in_settlement_window, spec_is_expired};
use crate::validate::{
    lemma_first_failure_at, spec_error_of, spec_first_failure, spec_holds, validate, Constraint,
};

verus! {

/// The balances of the accounts one instruction names, as the ledger holds
/// them when the instruction starts.  The engine computes the balances the
/// ledger must hold afterwards; the transfer service that applies them is an
/// external collaborator.
#[derive(Clone, Copy, Debug)]
pub struct Balances {
    /// The depositor's own account.
    pub depositor: u64,
    /// The counterpart-side account: the acceptor's, or whichever account
    /// the instruction names to receive the vault's payout.
    pub counterparty: u64,
    /// The vault in custody of the derived authority.
    pub vault: u64,
    /// The fee-collecting vault.
    pub fee_vault: u64,
}

/// The value held across all accounts an instruction touches.  Every
/// operation of the engine preserves this sum.
pub open spec fn spec_total(b: Balances) -> int {
    b.depositor + b.counterparty + b.vault + b.fee_vault
}

/// The pairing invariant between a record and its vault: the vault account
/// carries exactly what the record says is in custody.
pub open spec fn spec_vault_matches(r: EscrowRecord, b: Balances) -> bool {
    b.vault == spec_in_custody(r)
}

/// Everything `initialize` checks, in order, and the error the first failing
/// check reports; `None` means the record can be created.
pub open spec fn spec_initialize_outcome(
    program_id: Address,
    record_id: Address,
    depositor: Caller,
    metadata: Seq<u8>,
    expected_amount: u64,
    accept_amount: u64,
    now: u64,
    unlock_offset: u64,
    timeout_offset: u64,
) -> Option<EscrowError> {
    if expected_amount == 0 {
        Some(EscrowError::AmountInvalid)
    } else if !depositor.is_signer {
        Some(EscrowError::SignerMissing)
    } else if !spec_metadata_valid(metadata) {
        Some(EscrowError::MetadataInvalid)
    } else if unlock_offset >= timeout_offset {
        Some(EscrowError::WindowInvalid)
    } else if now + timeout_offset > u64::MAX {
        Some(EscrowError::AmountOverflow)
    } else if expected_amount + accept_amount > u64::MAX {
        Some(EscrowError::AmountOverflow)
    } else {
        match spec_find_bump(program_id@, authority_seed_seqs(record_id@), 255) {
            None => Some(EscrowError::AuthorityMismatch),
            Some(auth) => match spec_find_bump(program_id@, vault_seed_seqs(auth.0), 255) {
                None => Some(EscrowError::AuthorityMismatch),
                Some(_) => None,
            },
        }
    }
}

/// Creates an escrow record: validates the arguments, derives the custodial
/// authority and the vault, and returns the record in `Funded` with nothing
/// deposited yet.  The caller pays the allocation cost and becomes the
/// depositor.
///
/// On any failure no record exists and nothing has been derived for it.
pub fn initialize(
    program_id: &Address,
    record_id: &Address,
    depositor: &Caller,
    metadata: Vec<u8>,
    expected_amount: u64,
    accept_amount: u64,
    first_position: Option<ParticipantPosition>,
    now: u64,
    unlock_offset: u64,
    timeout_offset: u64,
) -> (out: Result<EscrowRecord, EscrowError>)
    ensures
        match out {
            Ok(rec) => {
                &&& spec_initialize_outcome(
                    *program_id,
                    *record_id,
                    *depositor,
                    metadata@,
                    expected_amount,
                    accept_amount,
                    now,
                    unlock_offset,
                    timeout_offset,
                ) is None
                &&& rec.program_id == *program_id
                &&& rec.record_id == *record_id
                &&& rec.depositor == depositor.address
                &&& rec.counterparty is None
                &&& rec.winner is None
                &&& rec.expected_amount == expected_amount
                &&& rec.accept_amount == accept_amount
                &&& rec.deposited_amount == 0
                &&& rec.accepted_amount == 0
                &&& rec.payout_amount == 0
                &&& rec.unlock_time == now + unlock_offset
                &&& rec.timeout_time == now + timeout_offset
                &&& rec.first_position == first_position
                &&& rec.second_position is None
                &&& rec.state == LifecycleState::Funded
                &&& rec.metadata == metadata
                &&& spec_find_bump(program_id@, authority_seed_seqs(record_id@), 255) == Some(
                    (rec.authority@, rec.authority_bump),
                )
                &&& spec_find_bump(program_id@, vault_seed_seqs(rec.authority@), 255) == Some(
                    (rec.vault@, rec.vault_bump),
                )
                &&& spec_record_wf(rec)
            },
            Err(e) => spec_initialize_outcome(
                *program_id,
                *record_id,
                *depositor,
                metadata@,
                expected_amount,
                accept_amount,
                now,
                unlock_offset,
                timeout_offset,
            ) == Some(e),
        },
        expected_amount == 0 ==> out == Err::<EscrowRecord, EscrowError>(
            EscrowError::AmountInvalid,
        ),
{
    if expected_amount == 0 {
        return Err(EscrowError::AmountInvalid);
    }
    if !depositor.is_signer {
        return Err(EscrowError::SignerMissing);
    }
    if !metadata_valid(&metadata) {
        return Err(EscrowError::MetadataInvalid);
    }
    if unlock_offset >= timeout_offset {
        return Err(EscrowError::WindowInvalid);
    }
    if now > u64::MAX - timeout_offset {
        return Err(EscrowError::AmountOverflow);
    }
    if expected_amount > u64::MAX - accept_amount {
        return Err(EscrowError::AmountOverflow);
    }
    let authority = match find_derived_address(
        program_id,
        &SeedKind::Authority { record_id: *record_id },
    ) {
        None => {
            return Err(EscrowError::AuthorityMismatch);
        },
        Some(p) => p,
    };
    let vault = match find_derived_address(
        program_id,
        &SeedKind::Vault { authority: authority.0 },
    ) {
        None => {
            return Err(EscrowError::AuthorityMismatch);
        },
        Some(p) => p,
    };
    Ok(
        EscrowRecord {
            program_id: *program_id,
            record_id: *record_id,
            depositor: depositor.address,
            counterparty: None,
            winner: None,
            expected_amount,
            accept_amount,
            deposited_amount: 0,
            accepted_amount: 0,
            payout_amount: 0,
            unlock_time: now + unlock_offset,
            timeout_time: now + timeout_offset,
            authority: authority.0,
            authority_bump: authority.1,
            vault: vault.0,
            vault_bump: vault.1,
            first_position,
            second_position: None,
            state: LifecycleState::Funded,
            metadata,
        },
    )
}

/// The ordered constraints of `deposit`.
pub open spec fn spec_deposit_constraints(
    r: EscrowRecord,
    b: Balances,
    caller: Caller,
    record_owner: Address,
    authority: Address,
    vault: Address,
    amount: u64,
) -> Seq<Constraint> {
    seq![
        Constraint::AmountPositive { amount },
        Constraint::SignerPresent { signer: caller.is_signer },
        Constraint::RecordOwnerMatch { owner: record_owner, program_id: r.program_id },
        Constraint::StateIsFunded { state: r.state },
        Constraint::IdentityMatch { actual: caller.address, expected: r.depositor },
        Constraint::DerivedAddressMatch {
            expected: authority,
            program_id: r.program_id,
            seeds: SeedKind::Authority { record_id: r.record_id },
            bump: r.authority_bump,
        },
        Constraint::DerivedAddressMatch {
            expected: vault,
            program_id: r.program_id,
            seeds: SeedKind::Vault { authority },
            bump: r.vault_bump,
        },
        Constraint::AmountWithinTarget {
            amount,
            headroom: (r.expected_amount - r.deposited_amount) as u64,
        },
        Constraint::FundsSufficient { amount, available: b.depositor },
    ]
}

/// What `deposit` returns: the error of the first failing constraint, or the
/// record and balances after the deposit leg.
pub open spec fn spec_deposit(
    r: EscrowRecord,
    b: Balances,
    caller: Caller,
    record_owner: Address,
    authority: Address,
    vault: Address,
    amount: u64,
) -> Result<(EscrowRecord, Balances), EscrowError> {
    match spec_first_failure(
        spec_deposit_constraints(r, b, caller, record_owner, authority, vault, amount),
    ) {
        Some(c) => Err(spec_error_of(c)),
        None => Ok(
            (
                EscrowRecord { deposited_amount: (r.deposited_amount + amount) as u64, ..r },
                Balances {
                    depositor: (b.depositor - amount) as u64,
                    vault: (b.vault + amount) as u64,
                    ..b
                },
            ),
        ),
    }
}

/// Moves `amount` from the depositor's own account into the vault and
/// records it, while the record is still `Funded` and the target amount is
/// not exceeded.  The supplied authority and vault addresses are re-verified
/// against their derivations before anything moves.
pub fn deposit(
    r: EscrowRecord,
    b: Balances,
    caller: &Caller,
    record_owner: &Address,
    authority: &Address,
    vault: &Address,
    amount: u64,
) -> (out: Result<(EscrowRecord, Balances), EscrowError>)
    requires
        spec_record_wf(r),
        spec_vault_matches(r, b),
    ensures
        out == spec_deposit(r, b, *caller, *record_owner, *authority, *vault, amount),
        out matches Ok(p) ==> spec_record_wf(p.0) && spec_vault_matches(p.0, p.1) && spec_total(
            p.1,
        ) == spec_total(b),
        amount == 0 ==> out == Err::<(EscrowRecord, Balances), EscrowError>(
            EscrowError::AmountInvalid,
        ),
{
    let ghost cspec = spec_deposit_constraints(
        r,
        b,
        *caller,
        *record_owner,
        *authority,
        *vault,
        amount,
    );
    let mut cs: Vec<Constraint> = Vec::new();
    cs.push(Constraint::AmountPositive { amount });
    cs.push(Constraint::SignerPresent { signer: caller.is_signer });
    cs.push(Constraint::RecordOwnerMatch { owner: *record_owner, program_id: r.program_id });
    cs.push(Constraint::StateIsFunded { state: r.state });
    cs.push(Constraint::IdentityMatch { actual: caller.address, expected: r.depositor });
    cs.push(
        Constraint::DerivedAddressMatch {
            expected: *authority,
            program_id: r.program_id,
            seeds: SeedKind::Authority { record_id: r.record_id },
            bump: r.authority_bump,
        },
    );
    cs.push(
        Constraint::DerivedAddressMatch {
            expected: *vault,
            program_id: r.program_id,
            seeds: SeedKind::Vault { authority: *authority },
            bump: r.vault_bump,
        },
    );
    cs.push(
        Constraint::AmountWithinTarget {
            amount,
            headroom: r.expected_amount - r.deposited_amount,
        },
    );
    cs.push(Constraint::FundsSufficient { amount, available: b.depositor });
    proof {
        assert(cs@ =~= cspec);
    }
    match validate(&cs) {
        Err(e) => {
            proof {
                if amount == 0 {
                    assert(!spec_holds(cspec[0]));
                    lemma_first_failure_at(cspec, 0);
                }
            }
            Err(e)
        },
        Ok(()) => {
            proof {
                assert(spec_holds(cspec[3]));
                assert(spec_holds(cspec[7]));
                assert(spec_holds(cspec[8]));
            }
            Ok(
                (
                    EscrowRecord { deposited_amount: r.deposited_amount + amount, ..r },
                    Balances { depositor: b.depositor - amount, vault: b.vault + amount, ..b },
                ),
            )
        },
    }
}

/// The ordered constraints of `accept`.
pub open spec fn spec_accept_constraints(
    r: EscrowRecord,
    b: Balances,
    caller: Caller,
    record_owner: Address,
    authority: Address,
    vault: Address,
    amount: u64,
    position: Option<ParticipantPosition>,
) -> Seq<Constraint> {
    seq![
        Constraint::AmountPositive { amount },
        Constraint::SignerPresent { signer: caller.is_signer },
        Constraint::RecordOwnerMatch { owner: record_owner, program_id: r.program_id },
        Constraint::StateIsFunded { state: r.state },
        Constraint::IdentityDistinct { actual: caller.address, excluded: r.depositor },
        Constraint::OppositePositions { first: r.first_position, second: position },
        Constraint::AmountEquals { amount, expected: r.accept_amount },
        Constraint::DerivedAddressMatch {
            expected: authority,
            program_id: r.program_id,
            seeds: SeedKind::Authority { record_id: r.record_id },
            bump: r.authority_bump,
        },
        Constraint::DerivedAddressMatch {
            expected: vault,
            program_id: r.program_id,
            seeds: SeedKind::Vault { authority },
            bump: r.vault_bump,
        },
        Constraint::FundsSufficient { amount, available: b.counterparty },
    ]
}

/// What `accept` returns.
pub open spec fn spec_accept(
    r: EscrowRecord,
    b: Balances,
    caller: Caller,
    record_owner: Address,
    authority: Address,
    vault: Address,
    amount: u64,
    position: Option<ParticipantPosition>,
) -> Result<(EscrowRecord, Balances), EscrowError> {
    match spec_first_failure(
        spec_accept_constraints(r, b, caller, record_owner, authority, vault, amount, position),
    ) {
        Some(c) => Err(spec_error_of(c)),
        None => Ok(
            (
                EscrowRecord {
                    state: LifecycleState::Accepted,
                    counterparty: Some(caller.address),
                    second_position: position,
                    accepted_amount: amount,
                    ..r
                },
                Balances {
                    counterparty: (b.counterparty - amount) as u64,
                    vault: (b.vault + amount) as u64,
                    ..b
                },
            ),
        ),
    }
}

/// A counterparty accepts the escrow: it contributes exactly the agreed
/// amount, declares the opposing position where positions are in play, and
/// the record moves `Funded` to `Accepted`.  The depositor itself cannot
/// accept.
pub fn accept(
    r: EscrowRecord,
    b: Balances,
    caller: &Caller,
    record_owner: &Address,
    authority: &Address,
    vault: &Address,
    amount: u64,
    position: Option<ParticipantPosition>,
) -> (out: Result<(EscrowRecord, Balances), EscrowError>)
    requires
        spec_record_wf(r),
        spec_vault_matches(r, b),
    ensures
        out == spec_accept(r, b, *caller, *record_owner, *authority, *vault, amount, position),
        out matches Ok(p) ==> spec_record_wf(p.0) && spec_vault_matches(p.0, p.1) && spec_total(
            p.1,
        ) == spec_total(b),
        amount == 0 ==> out == Err::<(EscrowRecord, Balances), EscrowError>(
            EscrowError::AmountInvalid,
        ),
{
    let ghost cspec = spec_accept_constraints(
        r,
        b,
        *caller,
        *record_owner,
        *authority,
        *vault,
        amount,
        position,
    );
    let mut cs: Vec<Constraint> = Vec::new();
    cs.push(Constraint::AmountPositive { amount });
    cs.push(Constraint::SignerPresent { signer: caller.is_signer });
    cs.push(Constraint::RecordOwnerMatch { owner: *record_owner, program_id: r.program_id });
    cs.push(Constraint::StateIsFunded { state: r.state });
    cs.push(Constraint::IdentityDistinct { actual: caller.address, excluded: r.depositor });
    cs.push(Constraint::OppositePositions { first: r.first_position, second: position });
    cs.push(Constraint::AmountEquals { amount, expected: r.accept_amount });
    cs.push(
        Constraint::DerivedAddressMatch {
            expected: *authority,
            program_id: r.program_id,
            seeds: SeedKind::Authority { record_id: r.record_id },
            bump: r.authority_bump,
        },
    );
    cs.push(
        Constraint::DerivedAddressMatch {
            expected: *vault,
            program_id: r.program_id,
            seeds: SeedKind::Vault { authority: *authority },
            bump: r.vault_bump,
        },
    );
    cs.push(Constraint::FundsSufficient { amount, available: b.counterparty });
    proof {
        assert(cs@ =~= cspec);
    }
    match validate(&cs) {
        Err(e) => {
            proof {
                if amount == 0 {
                    assert(!spec_holds(cspec[0]));
                    lemma_first_failure_at(cspec, 0);
                }
            }
            Err(e)
        },
        Ok(()) => {
            proof {
                assert(spec_holds(cspec[3]));
                assert(spec_holds(cspec[6]));
                assert(spec_holds(cspec[9]));
            }
            Ok(
                (
                    EscrowRecord {
                        state: LifecycleState::Accepted,
                        counterparty: Some(caller.address),
                        second_position: position,
                        accepted_amount: amount,
                        ..r
                    },
                    Balances {
                        counterparty: b.counterparty - amount,
                        vault: b.vault + amount,
                        ..b
                    },
                ),
            )
        },
    }
}

/// The ordered constraints of `withdraw`.
pub open spec fn spec_withdraw_constraints(
    r: EscrowRecord,
    b: Balances,
    caller: Caller,
    record_owner: Address,
    authority: Address,
    vault: Address,
    amount: u64,
) -> Seq<Constraint> {
    seq![
        Constraint::AmountPositive { amount },
        Constraint::SignerPresent { signer: caller.is_signer },
        Constraint::RecordOwnerMatch { owner: record_owner, program_id: r.program_id },
        Constraint::StateIsFunded { state: r.state },
        Constraint::IdentityMatch { actual: caller.address, expected: r.depositor },
        Constraint::DerivedAddressMatch {
            expected: authority,
            program_id: r.program_id,
            seeds: SeedKind::Authority { record_id: r.record_id },
            bump: r.authority_bump,
        },
        Constraint::DerivedAddressMatch {
            expected: vault,
            program_id: r.program_id,
            seeds: SeedKind::Vault { authority },
            bump: r.vault_bump,
        },
        Constraint::FundsSufficient { amount, available: r.deposited_amount },
        Constraint::SumFits { a: b.depositor, b: amount },
    ]
}

/// What `withdraw` returns.
pub open spec fn spec_withdraw(
    r: EscrowRecord,
    b: Balances,
    caller: Caller,
    record_owner: Address,
    authority: Address,
    vault: Address,
    amount: u64,
) -> Result<(EscrowRecord, Balances), EscrowError> {
    match spec_first_failure(
        spec_withdraw_constraints(r, b, caller, record_owner, authority, vault, amount),
    ) {
        Some(c) => Err(spec_error_of(c)),
        None => Ok(
            (
                EscrowRecord { deposited_amount: (r.deposited_amount - amount) as u64, ..r },
                Balances {
                    depositor: (b.depositor + amount) as u64,
                    vault: (b.vault - amount) as u64,
                    ..b
                },
            ),
        ),
    }
}

/// The depositor takes part of its own funding back out of the vault while
/// the record is still `Funded`: the refund leg of the custody protocol,
/// authorized by the derived authority, without closing the escrow.
pub fn withdraw(
    r: EscrowRecord,
    b: Balances,
    caller: &Caller,
    record_owner: &Address,
    authority: &Address,
    vault: &Address,
    amount: u64,
) -> (out: Result<(EscrowRecord, Balances), EscrowError>)
    requires
        spec_record_wf(r),
        spec_vault_matches(r, b),
    ensures
        out == spec_withdraw(r, b, *caller, *record_owner, *authority, *vault, amount),
        out matches Ok(p) ==> spec_record_wf(p.0) && spec_vault_matches(p.0, p.1) && spec_total(
            p.1,
        ) == spec_total(b),
        amount == 0 ==> out == Err::<(EscrowRecord, Balances), EscrowError>(
            EscrowError::AmountInvalid,
        ),
{
    let ghost cspec = spec_withdraw_constraints(
        r,
        b,
        *caller,
        *record_owner,
        *authority,
        *vault,
        amount,
    );
    let mut cs: Vec<Constraint> = Vec::new();
    cs.push(Constraint::AmountPositive { amount });
    cs.push(Constraint::SignerPresent { signer: caller.is_signer });
    cs.push(Constraint::RecordOwnerMatch { owner: *record_owner, program_id: r.program_id });
    cs.push(Constraint::StateIsFunded { state: r.state });
    cs.push(Constraint::IdentityMatch { actual: caller.address, expected: r.depositor });
    cs.push(
        Constraint::DerivedAddressMatch {
            expected: *authority,
            program_id: r.program_id,
            seeds: SeedKind::Authority { record_id: r.record_id },
            bump: r.authority_bump,
        },
    );
    cs.push(
        Constraint::DerivedAddressMatch {
            expected: *vault,
            program_id: r.program_id,
            seeds: SeedKind::Vault { authority: *authority },
            bump: r.vault_bump,
        },
    );
    cs.push(Constraint::FundsSufficient { amount, available: r.deposited_amount });
    cs.push(Constraint::SumFits { a: b.depositor, b: amount });
    proof {
        assert(cs@ =~= cspec);
    }
    match validate(&cs) {
        Err(e) => {
            proof {
                if amount == 0 {
                    assert(!spec_holds(cspec[0]));
                    lemma_first_failure_at(cspec, 0);
                }
            }
            Err(e)
        },
        Ok(()) => {
            proof {
                assert(spec_holds(cspec[3]));
                assert(spec_holds(cspec[7]));
                assert(spec_holds(cspec[8]));
            }
            Ok(
                (
                    EscrowRecord { deposited_amount: r.deposited_amount - amount, ..r },
                    Balances { depositor: b.depositor + amount, vault: b.vault - amount, ..b },
                ),
            )
        },
    }
}

/// The ordered constraints of `withdraw_fees`.
pub open spec fn spec_withdraw_fees_constraints(
    config: AdminConfig,
    caller: Caller,
    fee_vault: u64,
    recipient: u64,
    amount: u64,
) -> Seq<Constraint> {
    seq![
        Constraint::AmountPositive { amount },
        Constraint::SignerPresent { signer: caller.is_signer },
        Constraint::ConfigInitialized { flag: config.initialized },
        Constraint::IdentityMatch { actual: caller.address, expected: config.admin },
        Constraint::FundsSufficient { amount, available: fee_vault },
        Constraint::SumFits { a: recipient, b: amount },
    ]
}

/// What `withdraw_fees` returns: the fee vault's and the recipient's
/// balances after the move.
pub open spec fn spec_withdraw_fees(
    config: AdminConfig,
    caller: Caller,
    fee_vault: u64,
    recipient: u64,
    amount: u64,
) -> Result<(u64, u64), EscrowError> {
    match spec_first_failure(
        spec_withdraw_fees_constraints(config, caller, fee_vault, recipient, amount),
    ) {
        Some(c) => Err(spec_error_of(c)),
        None => Ok(((fee_vault - amount) as u64, (recipient + amount) as u64)),
    }
}

/// The administrator drains collected fees from the fee vault into its own
/// account.
pub fn withdraw_fees(
    config: &AdminConfig,
    caller: &Caller,
    fee_vault: u64,
    recipient: u64,
    amount: u64,
) -> (out: Result<(u64, u64), EscrowError>)
    ensures
        out == spec_withdraw_fees(*config, *caller, fee_vault, recipient, amount),
        out matches Ok(p) ==> p.0 + p.1 == fee_vault + recipient,
        amount == 0 ==> out == Err::<(u64, u64), EscrowError>(EscrowError::AmountInvalid),
{
    let ghost cspec = spec_withdraw_fees_constraints(*config, *caller, fee_vault, recipient, amount);
    let mut cs: Vec<Constraint> = Vec::new();
    cs.push(Constraint::AmountPositive { amount });
    cs.push(Constraint::SignerPresent { signer: caller.is_signer });
    cs.push(Constraint::ConfigInitialized { flag: config.initialized });
    cs.push(Constraint::IdentityMatch { actual: caller.address, expected: config.admin });
    cs.push(Constraint::FundsSufficient { amount, available: fee_vault });
    cs.push(Constraint::SumFits { a: recipient, b: amount });
    proof {
        assert(cs@ =~= cspec);
    }
    match validate(&cs) {
        Err(e) => {
            proof {
                if amount == 0 {
                    assert(!spec_holds(cspec[0]));
                    lemma_first_failure_at(cspec, 0);
                }
            }
            Err(e)
        },
        Ok(()) => {
            proof {
                assert(spec_holds(cspec[4]));
                assert(spec_holds(cspec[5]));
            }
            Ok((fee_vault - amount, recipient + amount))
        },
    }
}

/// The settlement strategies the engine supports.  The amount formulas in
/// the two position-based strategies are deliberately distinct and named, so
/// a caller always states which reconciliation it wants.
#[derive(Clone, Copy, Debug)]
pub enum SettlementTerms {
    /// Exact-amount exchange: `amount` must equal the deposited amount, the
    /// vault's deposit goes to the counterpart side, and a recorded
    /// counterparty contribution goes to the depositor.
    Exchange { amount: u64 },
    /// Position settlement net of a fee: the winner receives the whole
    /// custody minus `fee`, and `fee` goes to the fee vault.
    NetOfFee { winning_position: ParticipantPosition, fee: u64 },
    /// Position settlement as own deposit plus winnings: the winner receives
    /// its own contribution plus `winnings` taken from the loser's side, and
    /// the loser keeps the remainder of its contribution.
    DepositPlusWinnings { winning_position: ParticipantPosition, winnings: u64 },
}

/// The amount-like argument of a settlement, the one rejected when zero.
pub open spec fn spec_settle_amount_arg(t: SettlementTerms) -> u64 {
    match t {
        SettlementTerms::Exchange { amount } => amount,
        SettlementTerms::NetOfFee { fee, .. } => fee,
        SettlementTerms::DepositPlusWinnings { winnings, .. } => winnings,
    }
}

/// Whether the winning position is the depositor's declared position.
pub open spec fn spec_winner_is_depositor(r: EscrowRecord, p: ParticipantPosition) -> bool {
    r.first_position == Some(p)
}

/// The winner's identity for a position settlement.
pub open spec fn spec_winner_address(r: EscrowRecord, p: ParticipantPosition) -> Address {
    if spec_winner_is_depositor(r, p) {
        r.depositor
    } else {
        r.counterparty->0
    }
}

/// The custody net of the fee, or zero when the fee is not below the
/// custody (that case is rejected before the value is used).
pub open spec fn spec_net_payout(total: u64, fee: u64) -> u64 {
    if fee < total {
        (total - fee) as u64
    } else {
        0
    }
}

/// The winner's own contribution plus the winnings, or zero when the
/// winnings exceed the loser's contribution (that case is rejected before
/// the value is used).
pub open spec fn spec_dpw_payout(own: u64, winnings: u64, headroom: u64) -> u64 {
    if winnings <= headroom && own + winnings <= u64::MAX {
        (own + winnings) as u64
    } else {
        0
    }
}

/// What remains of the loser's contribution, or zero when the winnings
/// exceed it (that case is rejected before the value is used).
pub open spec fn spec_dpw_refund(winnings: u64, headroom: u64) -> u64 {
    if winnings <= headroom {
        (headroom - winnings) as u64
    } else {
        0
    }
}

/// The ordered constraints of `settle`: the common gate, then the
/// constraints of the chosen settlement strategy.
pub open spec fn spec_settle_constraints(
    r: EscrowRecord,
    b: Balances,
    config: AdminConfig,
    caller: Caller,
    record_owner: Address,
    authority: Address,
    vault: Address,
    now: u64,
    terms: SettlementTerms,
) -> Seq<Constraint> {
    seq![
        Constraint::AmountPositive { amount: spec_settle_amount_arg(terms) },
        Constraint::SignerPresent { signer: caller.is_signer },
        Constraint::RecordOwnerMatch { owner: record_owner, program_id: r.program_id },
        Constraint::StateIsOpen { state: r.state },
        Constraint::DerivedAddressMatch {
            expected: authority,
            program_id: r.program_id,
            seeds: SeedKind::Authority { record_id: r.record_id },
            bump: r.authority_bump,
        },
        Constraint::DerivedAddressMatch {
            expected: vault,
            program_id: r.program_id,
            seeds: SeedKind::Vault { authority },
            bump: r.vault_bump,
        },
        Constraint::Unlocked { now, unlock_time: r.unlock_time },
        Constraint::NotExpired { now, timeout_time: r.timeout_time },
    ] + match terms {
        SettlementTerms::Exchange { amount } => seq![
            Constraint::AmountEquals { amount, expected: r.deposited_amount },
            Constraint::SumFits { a: b.depositor, b: r.accepted_amount },
            Constraint::SumFits { a: b.counterparty, b: r.deposited_amount },
        ],
        SettlementTerms::NetOfFee { winning_position, fee } => seq![
            Constraint::ConfigInitialized { flag: config.initialized },
            Constraint::BothPositionsDeclared {
                first: r.first_position,
                second: r.second_position,
            },
            Constraint::OppositePositions {
                first: r.first_position,
                second: r.second_position,
            },
            Constraint::FeeBelowTotal {
                fee,
                total: (r.deposited_amount + r.accepted_amount) as u64,
            },
            Constraint::SumFits {
                a: if spec_winner_is_depositor(r, winning_position) {
                    b.depositor
                } else {
                    b.counterparty
                },
                b: spec_net_payout((r.deposited_amount + r.accepted_amount) as u64, fee),
            },
            Constraint::SumFits { a: b.fee_vault, b: fee },
        ],
        SettlementTerms::DepositPlusWinnings { winning_position, winnings } => seq![
            Constraint::BothPositionsDeclared {
                first: r.first_position,
                second: r.second_position,
            },
            Constraint::OppositePositions {
                first: r.first_position,
                second: r.second_position,
            },
            Constraint::AmountWithinTarget {
                amount: winnings,
                headroom: if spec_winner_is_depositor(r, winning_position) {
                    r.accepted_amount
                } else {
                    r.deposited_amount
                },
            },
            Constraint::SumFits {
                a: if spec_winner_is_depositor(r, winning_position) {
                    b.depositor
                } else {
                    b.counterparty
                },
                b: if spec_winner_is_depositor(r, winning_position) {
                    spec_dpw_payout(r.deposited_amount, winnings, r.accepted_amount)
                } else {
                    spec_dpw_payout(r.accepted_amount, winnings, r.deposited_amount)
                },
            },
            Constraint::SumFits {
                a: if spec_winner_is_depositor(r, winning_position) {
                    b.counterparty
                } else {
                    b.depositor
                },
                b: if spec_winner_is_depositor(r, winning_position) {
                    spec_dpw_refund(winnings, r.accepted_amount)
                } else {
                    spec_dpw_refund(winnings, r.deposited_amount)
                },
            },
        ],
    }
}

/// What `settle` returns when every constraint holds: the settled record and
/// the balances after the atomic legs of the chosen strategy.
pub open spec fn spec_settle_result(
    r: EscrowRecord,
    b: Balances,
    terms: SettlementTerms,
) -> (EscrowRecord, Balances) {
    match terms {
        SettlementTerms::Exchange { amount } => (
            EscrowRecord {
                state: LifecycleState::Settled,
                payout_amount: r.deposited_amount,
                ..r
            },
            Balances {
                depositor: (b.depositor + r.accepted_amount) as u64,
                counterparty: (b.counterparty + r.deposited_amount) as u64,
                vault: (b.vault - r.deposited_amount - r.accepted_amount) as u64,
                ..b
            },
        ),
        SettlementTerms::NetOfFee { winning_position, fee } => {
            let payout = spec_net_payout((r.deposited_amount + r.accepted_amount) as u64, fee);
            let rec = EscrowRecord {
                state: LifecycleState::Settled,
                payout_amount: payout,
                winner: Some(spec_winner_address(r, winning_position)),
                ..r
            };
            let drained = Balances {
                vault: (b.vault - r.deposited_amount - r.accepted_amount) as u64,
                fee_vault: (b.fee_vault + fee) as u64,
                ..b
            };
            if spec_winner_is_depositor(r, winning_position) {
                (rec, Balances { depositor: (b.depositor + payout) as u64, ..drained })
            } else {
                (rec, Balances { counterparty: (b.counterparty + payout) as u64, ..drained })
            }
        },
        SettlementTerms::DepositPlusWinnings { winning_position, winnings } => {
            if spec_winner_is_depositor(r, winning_position) {
                let payout = spec_dpw_payout(r.deposited_amount, winnings, r.accepted_amount);
                let refund = spec_dpw_refund(winnings, r.accepted_amount);
                (
                    EscrowRecord {
                        state: LifecycleState::Settled,
                        payout_amount: payout,
                        winner: Some(r.depositor),
                        ..r
                    },
                    Balances {
                        depositor: (b.depositor + payout) as u64,
                        counterparty: (b.counterparty + refund) as u64,
                        vault: (b.vault - r.deposited_amount - r.accepted_amount) as u64,
                        ..b
                    },
                )
            } else {
                let payout = spec_dpw_payout(r.accepted_amount, winnings, r.deposited_amount);
                let refund = spec_dpw_refund(winnings, r.deposited_amount);
                (
                    EscrowRecord {
                        state: LifecycleState::Settled,
                        payout_amount: payout,
                        winner: Some(r.counterparty->0),
                        ..r
                    },
                    Balances {
                        depositor: (b.depositor + refund) as u64,
                        counterparty: (b.counterparty + payout) as u64,
                        vault: (b.vault - r.deposited_amount - r.accepted_amount) as u64,
                        ..b
                    },
                )
            }
        },
    }
}

/// What `settle` returns.
pub open spec fn spec_settle(
    r: EscrowRecord,
    b: Balances,
    config: AdminConfig,
    caller: Caller,
    record_owner: Address,
    authority: Address,
    vault: Address,
    now: u64,
    terms: SettlementTerms,
) -> Result<(EscrowRecord, Balances), EscrowError> {
    match spec_first_failure(
        spec_settle_constraints(r, b, config, caller, record_owner, authority, vault, now, terms),
    ) {
        Some(c) => Err(spec_error_of(c)),
        None => Ok(spec_settle_result(r, b, terms)),
    }
}

/// Settles a still-open escrow inside its settlement window: the atomic
/// multi-leg transfer of the chosen strategy empties the vault, the payout
/// is recorded, and the record moves to the terminal `Settled` state.  All
/// legs take effect together or the operation returns an error with nothing
/// moved.
#[verifier::rlimit(100)]
pub fn settle(
    r: EscrowRecord,
    b: Balances,
    config: &AdminConfig,
    caller: &Caller,
    record_owner: &Address,
    authority: &Address,
    vault: &Address,
    now: u64,
    terms: SettlementTerms,
) -> (out: Result<(EscrowRecord, Balances), EscrowError>)
    requires
        spec_record_wf(r),
        spec_vault_matches(r, b),
    ensures
        out == spec_settle(
            r,
            b,
            *config,
            *caller,
            *record_owner,
            *authority,
            *vault,
            now,
            terms,
        ),
        out matches Ok(p) ==> spec_record_wf(p.0) && spec_vault_matches(p.0, p.1) && spec_total(
            p.1,
        ) == spec_total(b) && p.0.state == LifecycleState::Settled && p.1.vault == 0,
        out is Ok ==> spec_in_settlement_window(
            now,
            r.unlock_time,
            r.timeout_time,
        ),
        out matches Ok(p) ==> (terms matches SettlementTerms::NetOfFee { fee, .. }
            ==> p.0.payout_amount + fee == r.deposited_amount + r.accepted_amount),
        spec_settle_amount_arg(terms) == 0 ==> out == Err::<(EscrowRecord, Balances), EscrowError>(
            EscrowError::AmountInvalid,
        ),
{
    let ghost cspec = spec_settle_constraints(
        r,
        b,
        *config,
        *caller,
        *record_owner,
        *authority,
        *vault,
        now,
        terms,
    );
    let amount_arg = match terms {
        SettlementTerms::Exchange { amount } => amount,
        SettlementTerms::NetOfFee { fee, .. } => fee,
        SettlementTerms::DepositPlusWinnings { winnings, .. } => winnings,
    };
    let total = r.deposited_amount + r.accepted_amount;
    let winner_is_depositor = match terms {
        SettlementTerms::Exchange { .. } => true,
        SettlementTerms::NetOfFee { winning_position, .. } => match r.first_position {
            Some(p) => p == winning_position,
            None => false,
        },
        SettlementTerms::DepositPlusWinnings { winning_position, .. } => match r.first_position {
            Some(p) => p == winning_position,
            None => false,
        },
    };
    let mut cs: Vec<Constraint> = Vec::new();
    cs.push(Constraint::AmountPositive { amount: amount_arg });
    cs.push(Constraint::SignerPresent { signer: caller.is_signer });
    cs.push(Constraint::RecordOwnerMatch { owner: *record_owner, program_id: r.program_id });
    cs.push(Constraint::StateIsOpen { state: r.state });
    cs.push(
        Constraint::DerivedAddressMatch {
            expected: *authority,
            program_id: r.program_id,
            seeds: SeedKind::Authority { record_id: r.record_id },
            bump: r.authority_bump,
        },
    );
    cs.push(
        Constraint::DerivedAddressMatch {
            expected: *vault,
            program_id: r.program_id,
            seeds: SeedKind::Vault { authority: *authority },
            bump: r.vault_bump,
        },
    );
    cs.push(Constraint::Unlocked { now, unlock_time: r.unlock_time });
    cs.push(Constraint::NotExpired { now, timeout_time: r.timeout_time });
    match terms {
        SettlementTerms::Exchange { amount } => {
            cs.push(Constraint::AmountEquals { amount, expected: r.deposited_amount });
            cs.push(Constraint::SumFits { a: b.depositor, b: r.accepted_amount });
            cs.push(Constraint::SumFits { a: b.counterparty, b: r.deposited_amount });
        },
        SettlementTerms::NetOfFee { fee, .. } => {
            cs.push(Constraint::ConfigInitialized { flag: config.initialized });
            cs.push(
                Constraint::BothPositionsDeclared {
                    first: r.first_position,
                    second: r.second_position,
                },
            );
            cs.push(
                Constraint::OppositePositions {
                    first: r.first_position,
                    second: r.second_position,
                },
            );
            cs.push(Constraint::FeeBelowTotal { fee, total });
            let payout = if fee < total {
                total - fee
            } else {
                0
            };
            cs.push(
                Constraint::SumFits {
                    a: if winner_is_depositor {
                        b.depositor
                    } else {
                        b.counterparty
                    },
                    b: payout,
                },
            );
            cs.push(Constraint::SumFits { a: b.fee_vault, b: fee });
        },
        SettlementTerms::DepositPlusWinnings { winnings, .. } => {
            cs.push(
                Constraint::BothPositionsDeclared {
                    first: r.first_position,
                    second: r.second_position,
                },
            );
            cs.push(
                Constraint::OppositePositions {
                    first: r.first_position,
                    second: r.second_position,
                },
            );
            let own = if winner_is_depositor {
                r.deposited_amount
            } else {
                r.accepted_amount
            };
            let headroom = if winner_is_depositor {
                r.accepted_amount
            } else {
                r.deposited_amount
            };
            cs.push(Constraint::AmountWithinTarget { amount: winnings, headroom });
            let payout = if winnings <= headroom {
                own + winnings
            } else {
                0
            };
            let refund = if winnings <= headroom {
                headroom - winnings
            } else {
                0
            };
            cs.push(
                Constraint::SumFits {
                    a: if winner_is_depositor {
                        b.depositor
                    } else {
                        b.counterparty
                    },
                    b: payout,
                },
            );
            cs.push(
                Constraint::SumFits {
                    a: if winner_is_depositor {
                        b.counterparty
                    } else {
                        b.depositor
                    },
                    b: refund,
                },
            );
        },
    }
    proof {
        assert(cs@ =~= cspec);
    }
    match validate(&cs) {
        Err(e) => {
            proof {
                if spec_settle_amount_arg(terms) == 0 {
                    assert(!spec_holds(cspec[0]));
                    lemma_first_failure_at(cspec, 0);
                }
            }
            Err(e)
        },
        Ok(()) => {
            proof {
                assert(spec_holds(cspec[3]));
                assert(spec_holds(cspec[6]));
                assert(spec_holds(cspec[7]));
            }
            match terms {
                SettlementTerms::Exchange { amount } => {
                    proof {
                        assert(spec_holds(cspec[9]));
                        assert(spec_holds(cspec[10]));
                    }
                    Ok(
                        (
                            EscrowRecord {
                                state: LifecycleState::Settled,
                                payout_amount: r.deposited_amount,
                                ..r
                            },
                            Balances {
                                depositor: b.depositor + r.accepted_amount,
                                counterparty: b.counterparty + r.deposited_amount,
                                vault: b.vault - total,
                                ..b
                            },
                        ),
                    )
                },
                SettlementTerms::NetOfFee { fee, .. } => {
                    proof {
                        assert(spec_holds(cspec[9]));
                        assert(spec_holds(cspec[11]));
                        assert(spec_holds(cspec[12]));
                        assert(spec_holds(cspec[13]));
                        assert(r.second_position is Some);
                        assert(r.state == LifecycleState::Accepted);
                        assert(r.counterparty is Some);
                    }
                    let payout = total - fee;
                    proof {
                        assert(payout + fee == r.deposited_amount + r.accepted_amount);
                    }
                    let winner_addr = if winner_is_depositor {
                        r.depositor
                    } else {
                        match &r.counterparty {
                            Some(c) => *c,
                            None => r.depositor,
                        }
                    };
                    let rec = EscrowRecord {
                        state: LifecycleState::Settled,
                        payout_amount: payout,
                        winner: Some(winner_addr),
                        ..r
                    };
                    let bal = if winner_is_depositor {
                        Balances {
                            depositor: b.depositor + payout,
                            vault: b.vault - total,
                            fee_vault: b.fee_vault + fee,
                            ..b
                        }
                    } else {
                        Balances {
                            counterparty: b.counterparty + payout,
                            vault: b.vault - total,
                            fee_vault: b.fee_vault + fee,
                            ..b
                        }
                    };
                    Ok((rec, bal))
                },
                SettlementTerms::DepositPlusWinnings { winnings, .. } => {
                    proof {
                        assert(spec_holds(cspec[8]));
                        assert(spec_holds(cspec[10]));
                        assert(spec_holds(cspec[11]));
                        assert(spec_holds(cspec[12]));
                        assert(r.second_position is Some);
                        assert(r.state == LifecycleState::Accepted);
                        assert(r.counterparty is Some);
                    }
                    let own = if winner_is_depositor {
                        r.deposited_amount
                    } else {
                        r.accepted_amount
                    };
                    let headroom = if winner_is_depositor {
                        r.accepted_amount
                    } else {
                        r.deposited_amount
                    };
                    let payout = own + winnings;
                    let refund = headroom - winnings;
                    let winner_addr = if winner_is_depositor {
                        r.depositor
                    } else {
                        match &r.counterparty {
                            Some(c) => *c,
                            None => r.depositor,
                        }
                    };
                    let rec = EscrowRecord {
                        state: LifecycleState::Settled,
                        payout_amount: payout,
                        winner: Some(winner_addr),
                        ..r
                    };
                    let bal = if winner_is_depositor {
                        Balances {
                            depositor: b.depositor + payout,
                            counterparty: b.counterparty + refund,
                            vault: b.vault - total,
                            ..b
                        }
                    } else {
                        Balances {
                            depositor: b.depositor + refund,
                            counterparty: b.counterparty + payout,
                            vault: b.vault - total,
                            ..b
                        }
                    };
                    Ok((rec, bal))
                },
            }
        },
    }
}

/// The ordered constraints of `cancel`.
pub open spec fn spec_cancel_constraints(
    r: EscrowRecord,
    b: Balances,
    caller: Caller,
    record_owner: Address,
    authority: Address,
    vault: Address,
) -> Seq<Constraint> {
    seq![
        Constraint::SignerPresent { signer: caller.is_signer },
        Constraint::RecordOwnerMatch { owner: record_owner, program_id: r.program_id },
        Constraint::StateIsOpen { state: r.state },
        Constraint::IdentityMatch { actual: caller.address, expected: r.depositor },
        Constraint::DerivedAddressMatch {
            expected: authority,
            program_id: r.program_id,
            seeds: SeedKind::Authority { record_id: r.record_id },
            bump: r.authority_bump,
        },
        Constraint::DerivedAddressMatch {
            expected: vault,
            program_id: r.program_id,
            seeds: SeedKind::Vault { authority },
            bump: r.vault_bump,
        },
        Constraint::SumFits {
            a: b.depositor,
            b: (r.deposited_amount + r.accepted_amount) as u64,
        },
    ]
}

/// What `cancel` returns.
pub open spec fn spec_cancel(
    r: EscrowRecord,
    b: Balances,
    caller: Caller,
    record_owner: Address,
    authority: Address,
    vault: Address,
) -> Result<(EscrowRecord, Balances), EscrowError> {
    match spec_first_failure(spec_cancel_constraints(r, b, caller, record_owner, authority, vault)) {
        Some(c) => Err(spec_error_of(c)),
        None => Ok(
            (
                EscrowRecord { state: LifecycleState::Cancelled, ..r },
                Balances {
                    depositor: (b.depositor + r.deposited_amount + r.accepted_amount) as u64,
                    vault: (b.vault - r.deposited_amount - r.accepted_amount) as u64,
                    ..b
                },
            ),
        ),
    }
}

/// The depositor cancels a still-open escrow: the refund transfer moves the
/// whole vault balance back to the depositor, the vault is drained, and the
/// record moves to the terminal `Cancelled` state.  A second cancellation is
/// rejected as an illegal state transition, not refunded twice.
pub fn cancel(
    r: EscrowRecord,
    b: Balances,
    caller: &Caller,
    record_owner: &Address,
    authority: &Address,
    vault: &Address,
) -> (out: Result<(EscrowRecord, Balances), EscrowError>)
    requires
        spec_record_wf(r),
        spec_vault_matches(r, b),
    ensures
        out == spec_cancel(r, b, *caller, *record_owner, *authority, *vault),
        out matches Ok(p) ==> spec_record_wf(p.0) && spec_vault_matches(p.0, p.1) && spec_total(
            p.1,
        ) == spec_total(b) && p.0.state == LifecycleState::Cancelled && p.1.vault == 0,
        caller.is_signer && record_owner@ == r.program_id@ && !spec_state_open(
            r.state,
        ) ==> out == Err::<(EscrowRecord, Balances), EscrowError>(
            EscrowError::IllegalStateTransition,
        ),
{
    let ghost cspec = spec_cancel_constraints(r, b, *caller, *record_owner, *authority, *vault);
    let custody = r.deposited_amount + r.accepted_amount;
    let mut cs: Vec<Constraint> = Vec::new();
    cs.push(Constraint::SignerPresent { signer: caller.is_signer });
    cs.push(Constraint::RecordOwnerMatch { owner: *record_owner, program_id: r.program_id });
    cs.push(Constraint::StateIsOpen { state: r.state });
    cs.push(Constraint::IdentityMatch { actual: caller.address, expected: r.depositor });
    cs.push(
        Constraint::DerivedAddressMatch {
            expected: *authority,
            program_id: r.program_id,
            seeds: SeedKind::Authority { record_id: r.record_id },
            bump: r.authority_bump,
        },
    );
    cs.push(
        Constraint::DerivedAddressMatch {
            expected: *vault,
            program_id: r.program_id,
            seeds: SeedKind::Vault { authority: *authority },
            bump: r.vault_bump,
        },
    );
    cs.push(Constraint::SumFits { a: b.depositor, b: custody });
    proof {
        assert(cs@ =~= cspec);
    }
    match validate(&cs) {
        Err(e) => {
            proof {
                if caller.is_signer && record_owner@ == r.program_id@
                    && !spec_state_open(r.state) {
                    assert(spec_holds(cspec[0]));
                    assert(spec_holds(cspec[1]));
                    assert(!spec_holds(cspec[2]));
                    lemma_first_failure_at(cspec, 2);
                }
            }
            Err(e)
        },
        Ok(()) => {
            proof {
                assert(spec_holds(cspec[2]));
                assert(spec_holds(cspec[6]));
            }
            Ok(
                (
                    EscrowRecord { state: LifecycleState::Cancelled, ..r },
                    Balances { depositor: b.depositor + custody, vault: b.vault - custody, ..b },
                ),
            )
        },
    }
}

/// The ordered constraints of `reclaim`.
pub open spec fn spec_reclaim_constraints(
    r: EscrowRecord,
    b: Balances,
    caller: Caller,
    record_owner: Address,
    authority: Address,
    vault: Address,
    now: u64,
) -> Seq<Constraint> {
    seq![
        Constraint::SignerPresent { signer: caller.is_signer },
        Constraint::RecordOwnerMatch { owner: record_owner, program_id: r.program_id },
        Constraint::StateIsOpen { state: r.state },
        Constraint::IdentityMatch { actual: caller.address, expected: r.depositor },
        Constraint::DerivedAddressMatch {
            expected: authority,
            program_id: r.program_id,
            seeds: SeedKind::Authority { record_id: r.record_id },
            bump: r.authority_bump,
        },
        Constraint::DerivedAddressMatch {
            expected: vault,
            program_id: r.program_id,
            seeds: SeedKind::Vault { authority },
            bump: r.vault_bump,
        },
        Constraint::AlreadyExpired { now, timeout_time: r.timeout_time },
        Constraint::SumFits {
            a: b.depositor,
            b: (r.deposited_amount + r.accepted_amount) as u64,
        },
    ]
}

/// What `reclaim` returns.
pub open spec fn spec_reclaim(
    r: EscrowRecord,
    b: Balances,
    caller: Caller,
    record_owner: Address,
    authority: Address,
    vault: Address,
    now: u64,
) -> Result<(EscrowRecord, Balances), EscrowError> {
    match spec_first_failure(
        spec_reclaim_constraints(r, b, caller, record_owner, authority, vault, now),
    ) {
        Some(c) => Err(spec_error_of(c)),
        None => Ok(
            (
                EscrowRecord { state: LifecycleState::Expired, ..r },
                Balances {
                    depositor: (b.depositor + r.deposited_amount + r.accepted_amount) as u64,
                    vault: (b.vault - r.deposited_amount - r.accepted_amount) as u64,
                    ..b
                },
            ),
        ),
    }
}

/// After the timeout has passed, the depositor reclaims the vault: the whole
/// balance is returned to the depositor and the record moves to the terminal
/// `Expired` state.  Before the timeout the reclaim is rejected as too
/// early.
pub fn reclaim(
    r: EscrowRecord,
    b: Balances,
    caller: &Caller,
    record_owner: &Address,
    authority: &Address,
    vault: &Address,
    now: u64,
) -> (out: Result<(EscrowRecord, Balances), EscrowError>)
    requires
        spec_record_wf(r),
        spec_vault_matches(r, b),
    ensures
        out == spec_reclaim(r, b, *caller, *record_owner, *authority, *vault, now),
        out matches Ok(p) ==> spec_record_wf(p.0) && spec_vault_matches(p.0, p.1) && spec_total(
            p.1,
        ) == spec_total(b) && p.0.state == LifecycleState::Expired && p.1.vault == 0,
        out is Ok ==> spec_is_expired(now, r.timeout_time),
{
    let ghost cspec = spec_reclaim_constraints(
        r,
        b,
        *caller,
        *record_owner,
        *authority,
        *vault,
        now,
    );
    let custody = r.deposited_amount + r.accepted_amount;
    let mut cs: Vec<Constraint> = Vec::new();
    cs.push(Constraint::SignerPresent { signer: caller.is_signer });
    cs.push(Constraint::RecordOwnerMatch { owner: *record_owner, program_id: r.program_id });
    cs.push(Constraint::StateIsOpen { state: r.state });
    cs.push(Constraint::IdentityMatch { actual: caller.address, expected: r.depositor });
    cs.push(
        Constraint::DerivedAddressMatch {
            expected: *authority,
            program_id: r.program_id,
            seeds: SeedKind::Authority { record_id: r.record_id },
            bump: r.authority_bump,
        },
    );
    cs.push(
        Constraint::DerivedAddressMatch {
            expected: *vault,
            program_id: r.program_id,
            seeds: SeedKind::Vault { authority: *authority },
            bump: r.vault_bump,
        },
    );
    cs.push(Constraint::AlreadyExpired { now, timeout_time: r.timeout_time });
    cs.push(Constraint::SumFits { a: b.depositor, b: custody });
    proof {
        assert(cs@ =~= cspec);
    }
    match validate(&cs) {
        Err(e) => Err(e),
        Ok(()) => {
            proof {
                assert(spec_holds(cspec[2]));
                assert(spec_holds(cspec[6]));
                assert(spec_holds(cspec[7]));
            }
            Ok(
                (
                    EscrowRecord { state: LifecycleState::Expired, ..r },
                    Balances { depositor: b.depositor + custody, vault: b.vault - custody, ..b },
                ),
            )
        },
    }
}

/// The ordered constraints of `reset_time_lock`.
pub open spec fn spec_reset_time_lock_constraints(
    r: EscrowRecord,
    caller: Caller,
    record_owner: Address,
    new_unlock: u64,
    new_timeout: u64,
) -> Seq<Constraint> {
    seq![
        Constraint::SignerPresent { signer: caller.is_signer },
        Constraint::RecordOwnerMatch { owner: record_owner, program_id: r.program_id },
        Constraint::StateIsOpen { state: r.state },
        Constraint::IdentityMatch { actual: caller.address, expected: r.depositor },
        Constraint::WindowWellFormed { unlock: new_unlock, timeout: new_timeout },
    ]
}

/// What `reset_time_lock` returns.
pub open spec fn spec_reset_time_lock(
    r: EscrowRecord,
    caller: Caller,
    record_owner: Address,
    new_unlock: u64,
    new_timeout: u64,
) -> Result<EscrowRecord, EscrowError> {
    match spec_first_failure(
        spec_reset_time_lock_constraints(r, caller, record_owner, new_unlock, new_timeout),
    ) {
        Some(c) => Err(spec_error_of(c)),
        None => Ok(EscrowRecord { unlock_time: new_unlock, timeout_time: new_timeout, ..r }),
    }
}

/// The explicit, separately authorized administrative transition that resets
/// a still-open record's time window.  No other operation ever moves the
/// unlock or timeout boundary.
pub fn reset_time_lock(
    r: EscrowRecord,
    caller: &Caller,
    record_owner: &Address,
    new_unlock: u64,
    new_timeout: u64,
) -> (out: Result<EscrowRecord, EscrowError>)
    requires
        spec_record_wf(r),
    ensures
        out == spec_reset_time_lock(r, *caller, *record_owner, new_unlock, new_timeout),
        out matches Ok(rec) ==> spec_record_wf(rec) && rec.unlock_time == new_unlock
            && rec.timeout_time == new_timeout && rec.state == r.state
            && spec_in_custody(rec) == spec_in_custody(r),
{
    let ghost cspec = spec_reset_time_lock_constraints(
        r,
        *caller,
        *record_owner,
        new_unlock,
        new_timeout,
    );
    let mut cs: Vec<Constraint> = Vec::new();
    cs.push(Constraint::SignerPresent { signer: caller.is_signer });
    cs.push(Constraint::RecordOwnerMatch { owner: *record_owner, program_id: r.program_id });
    cs.push(Constraint::StateIsOpen { state: r.state });
    cs.push(Constraint::IdentityMatch { actual: caller.address, expected: r.depositor });
    cs.push(Constraint::WindowWellFormed { unlock: new_unlock, timeout: new_timeout });
    proof {
        assert(cs@ =~= cspec);
    }
    match validate(&cs) {
        Err(e) => Err(e),
        Ok(()) => {
            proof {
                assert(spec_holds(cspec[4]));
            }
            Ok(EscrowRecord { unlock_time: new_unlock, timeout_time: new_timeout, ..r })
        },
    }
}

/// The ordered constraints of `init_admin`.
pub open spec fn spec_init_admin_constraints(admin: Caller, existing: bool) -> Seq<Constraint> {
    seq![
        Constraint::SignerPresent { signer: admin.is_signer },
        Constraint::ConfigFresh { flag: existing },
    ]
}

/// What `init_admin` returns.
pub open spec fn spec_init_admin(admin: Caller, existing: bool) -> Result<
    AdminConfig,
    EscrowError,
> {
    match spec_first_failure(spec_init_admin_constraints(admin, existing)) {
        Some(c) => Err(spec_error_of(c)),
        None => Ok(AdminConfig { admin: admin.address, initialized: true }),
    }
}

/// Sets up the administrative configuration once.  `existing` says whether a
/// configuration was already initialized; a second initialization is
/// rejected.
pub fn init_admin(admin: &Caller, existing: bool) -> (out: Result<AdminConfig, EscrowError>)
    ensures
        out == spec_init_admin(*admin, existing),
{
    let mut cs: Vec<Constraint> = Vec::new();
    cs.push(Constraint::SignerPresent { signer: admin.is_signer });
    cs.push(Constraint::ConfigFresh { flag: existing });
    proof {
        assert(cs@ =~= spec_init_admin_constraints(*admin, existing));
    }
    match validate(&cs) {
        Err(e) => Err(e),
        Ok(()) => Ok(AdminConfig { admin: admin.address, initialized: true }),
    }
}

} // verus!
