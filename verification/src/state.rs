use vstd::prelude::*;

use crate::account::Address;

verus! {

/// The maximum byte length of a record's descriptive metadata.
pub const MAX_METADATA_LEN: usize = 1024;

/// The lifecycle of an escrow record.
///
/// `Settled`, `Cancelled` and `Expired` are terminal: no transition leaves
/// them, and on entry the vault has been drained, so a record in a terminal
/// state holds no value in custody.
#[derive(Clone, Copy, Debug, PartialEq, Eq, Structural)]
pub enum LifecycleState {
    Uninitialized,
    Funded,
    Accepted,
    Settled,
    Cancelled,
    Expired,
}

/// The side a participant takes in the two-party settlement variant.
#[derive(Clone, Copy, Debug, PartialEq, Eq, Structural)]
pub enum ParticipantPosition {
    Long,
    Short,
}

/// True of the states that still hold custody and admit transitions.
pub open spec fn spec_state_open(s: LifecycleState) -> bool {
    s == LifecycleState::Funded || s == LifecycleState::Accepted
}

/// True of the terminal states.
pub open spec fn spec_state_terminal(s: LifecycleState) -> bool {
    s == LifecycleState::Settled || s == LifecycleState::Cancelled || s
        == LifecycleState::Expired
}

/// A blank byte: one that contributes nothing visible to metadata.
pub open spec fn spec_is_blank(b: u8) -> bool {
    b == 32 || b == 9 || b == 10 || b == 12 || b == 13
}

/// Valid metadata is non-empty, not entirely blank, and at most
/// `MAX_METADATA_LEN` bytes long.
pub open spec fn spec_metadata_valid(m: Seq<u8>) -> bool {
    &&& 0 < m.len() <= MAX_METADATA_LEN
    &&& exists|i: int| 0 <= i < m.len() && !spec_is_blank(m[i])
}

/// Checks the metadata rule.
pub fn metadata_valid(m: &Vec<u8>) -> (r: bool)
    ensures
        r == spec_metadata_valid(m@),
{
    if m.len() == 0 || m.len() > MAX_METADATA_LEN {
        return false;
    }
    let mut i: usize = 0;
    while i < m.len()
        invariant
            i <= m@.len(),
            0 < m@.len() <= MAX_METADATA_LEN,
            forall|j: int| 0 <= j < i ==> spec_is_blank(m@[j]),
        decreases m@.len() - i,
    {
        let b = m[i];
        if !(b == 32 || b == 9 || b == 10 || b == 12 || b == 13) {
            assert(!spec_is_blank(m@[i as int]));
            return true;
        }
        i += 1;
    }
    false
}

/// The core entity: one escrow, campaign deposit, or two-party bet.
///
/// The record never stores balances; the value in custody sits in the vault
/// account, whose balance callers pass alongside the record.  The record
/// stores the identities, the agreed amounts, the time window, the derived
/// authority and vault addresses with their bumps, and the lifecycle state.
#[derive(Clone, Debug)]
pub struct EscrowRecord {
    /// The owning program's address: only this program may mutate the record.
    pub program_id: Address,
    /// The record's own account address; the authority is derived from it.
    pub record_id: Address,
    /// The party whose deposit the escrow holds.
    pub depositor: Address,
    /// The accepting party; unknown until acceptance.
    pub counterparty: Option<Address>,
    /// The settlement winner; set only by a position-based settlement.
    pub winner: Option<Address>,
    /// The amount the depositor has agreed to fund.
    pub expected_amount: u64,
    /// The amount a counterparty must contribute to accept; zero means the
    /// escrow is one-sided and cannot be accepted.
    pub accept_amount: u64,
    /// What the depositor has funded so far.
    pub deposited_amount: u64,
    /// What the counterparty has contributed.
    pub accepted_amount: u64,
    /// What settlement paid out; zero until settled.
    pub payout_amount: u64,
    /// Settlement is allowed from this logical time onwards.
    pub unlock_time: u64,
    /// Settlement is refused from this logical time onwards; reclaiming
    /// becomes possible.
    pub timeout_time: u64,
    /// The derived custodial authority over the vault.
    pub authority: Address,
    /// The bump byte that makes the authority derivation valid.
    pub authority_bump: u8,
    /// The vault account holding the value in custody.
    pub vault: Address,
    /// The bump byte that makes the vault derivation valid.
    pub vault_bump: u8,
    /// The depositor's declared position, in the two-party variant.
    pub first_position: Option<ParticipantPosition>,
    /// The counterparty's declared position, set on acceptance.
    pub second_position: Option<ParticipantPosition>,
    /// Where the record stands in its lifecycle.
    pub state: LifecycleState,
    /// Bounded descriptive text, fixed at creation.
    pub metadata: Vec<u8>,
}

/// The value a record holds in custody: what its vault account must carry.
/// Terminal states have drained the vault.
pub open spec fn spec_in_custody(r: EscrowRecord) -> int {
    if spec_state_terminal(r.state) {
        0
    } else {
        r.deposited_amount + r.accepted_amount
    }
}

/// The record invariant: established by `initialize` and preserved by every
/// transition.
pub open spec fn spec_record_wf(r: EscrowRecord) -> bool {
    &&& r.unlock_time < r.timeout_time
    &&& spec_metadata_valid(r.metadata@)
    &&& r.expected_amount > 0
    &&& r.deposited_amount <= r.expected_amount
    &&& r.accepted_amount <= r.accept_amount
    &&& r.expected_amount + r.accept_amount <= u64::MAX
    &&& r.state != LifecycleState::Uninitialized
    &&& r.state == LifecycleState::Funded ==> {
        &&& r.counterparty is None
        &&& r.winner is None
        &&& r.second_position is None
        &&& r.accepted_amount == 0
        &&& r.payout_amount == 0
    }
    &&& r.state == LifecycleState::Accepted ==> {
        &&& r.counterparty is Some
        &&& r.winner is None
        &&& r.accepted_amount == r.accept_amount
        &&& r.payout_amount == 0
    }
}

/// Administrative configuration for the fee-collecting side of the engine:
/// who may drain the fee vault.
#[derive(Clone, Copy, Debug)]
pub struct AdminConfig {
    /// The administrator authorized to withdraw collected fees.
    pub admin: Address,
    /// Set once by `init_admin`; operations that touch the fee vault require
    /// it.
    pub initialized: bool,
}

} // verus!
