use vstd::bytes::{
    lemma_auto_spec_u16_to_from_le_bytes, lemma_auto_spec_u64_to_from_le_bytes,
    spec_u16_from_le_bytes, spec_u16_to_le_bytes, spec_u64_from_le_bytes, spec_u64_to_le_bytes,
    u16_from_le_bytes, u16_to_le_bytes, u64_from_le_bytes, u64_to_le_bytes,
};
use vstd::prelude::*;
use vstd::slice::{slice_subrange, slice_to_vec};

use crate::account::Address;
use crate::state::{
    metadata_valid, spec_metadata_valid, spec_record_wf, EscrowRecord, LifecycleState,
    ParticipantPosition, MAX_METADATA_LEN,
};

verus! {

/// The version byte that opens every persisted record.
pub const RECORD_VERSION: u8 = 1;

/// Fixed offsets of the persisted record layout: a one-byte header region
/// (version, state, bumps, positions), the fixed-width address and amount
/// fields, and a length-prefixed, zero-padded metadata field.  The total
/// size is fixed at `RECORD_LEN`.
pub const VERSION_OFF: usize = 0;

pub const STATE_OFF: usize = 1;

pub const AUTHORITY_BUMP_OFF: usize = 2;

pub const VAULT_BUMP_OFF: usize = 3;

pub const FIRST_POSITION_OFF: usize = 4;

pub const SECOND_POSITION_OFF: usize = 5;

pub const PROGRAM_ID_OFF: usize = 6;

pub const RECORD_ID_OFF: usize = 38;

pub const DEPOSITOR_OFF: usize = 70;

pub const AUTHORITY_OFF: usize = 102;

pub const VAULT_OFF: usize = 134;

pub const COUNTERPARTY_TAG_OFF: usize = 166;

pub const COUNTERPARTY_OFF: usize = 167;

pub const WINNER_TAG_OFF: usize = 199;

pub const WINNER_OFF: usize = 200;

pub const EXPECTED_AMOUNT_OFF: usize = 232;

pub const ACCEPT_AMOUNT_OFF: usize = 240;

pub const DEPOSITED_AMOUNT_OFF: usize = 248;

pub const ACCEPTED_AMOUNT_OFF: usize = 256;

pub const PAYOUT_AMOUNT_OFF: usize = 264;

pub const UNLOCK_TIME_OFF: usize = 272;

pub const TIMEOUT_TIME_OFF: usize = 280;

pub const METADATA_LEN_OFF: usize = 288;

pub const METADATA_OFF: usize = 290;

/// The fixed total size of a persisted record.
pub const RECORD_LEN: usize = METADATA_OFF + MAX_METADATA_LEN;

/// The wire byte of a lifecycle state.
pub open spec fn spec_state_byte(s: LifecycleState) -> u8 {
    match s {
        LifecycleState::Uninitialized => 0,
        LifecycleState::Funded => 1,
        LifecycleState::Accepted => 2,
        LifecycleState::Settled => 3,
        LifecycleState::Cancelled => 4,
        LifecycleState::Expired => 5,
    }
}

/// The lifecycle state a wire byte denotes.  An uninitialized record is
/// never persisted, so byte zero is refused along with unknown bytes.
pub open spec fn spec_state_of_byte(b: u8) -> Option<LifecycleState> {
    if b == 1 {
        Some(LifecycleState::Funded)
    } else if b == 2 {
        Some(LifecycleState::Accepted)
    } else if b == 3 {
        Some(LifecycleState::Settled)
    } else if b == 4 {
        Some(LifecycleState::Cancelled)
    } else if b == 5 {
        Some(LifecycleState::Expired)
    } else {
        None
    }
}

/// The wire byte of an optional position.
pub open spec fn spec_position_byte(p: Option<ParticipantPosition>) -> u8 {
    match p {
        None => 0,
        Some(ParticipantPosition::Long) => 1,
        Some(ParticipantPosition::Short) => 2,
    }
}

/// The optional position a wire byte denotes.
pub open spec fn spec_position_of_byte(b: u8) -> Option<Option<ParticipantPosition>> {
    if b == 0 {
        Some(None)
    } else if b == 1 {
        Some(Some(ParticipantPosition::Long))
    } else if b == 2 {
        Some(Some(ParticipantPosition::Short))
    } else {
        None
    }
}

/// The wire bytes of an optional address: a presence tag followed by the
/// address, or by 32 zero bytes.
pub open spec fn spec_opt_address_bytes(a: Option<Address>) -> Seq<u8> {
    match a {
        Some(x) => seq![1u8] + x@,
        None => seq![0u8] + Seq::new(32, |i: int| 0u8),
    }
}

/// The amount field persisted at `off`.
pub open spec fn spec_field_u64(bytes: Seq<u8>, off: int) -> u64 {
    spec_u64_from_le_bytes(bytes.subrange(off, off + 8))
}

/// The address field persisted at `off`.
pub open spec fn spec_field_address(bytes: Seq<u8>, off: int) -> Seq<u8> {
    bytes.subrange(off, off + 32)
}

/// The persisted metadata length.
pub open spec fn spec_field_metadata_len(bytes: Seq<u8>) -> u16 {
    spec_u16_from_le_bytes(bytes.subrange(METADATA_LEN_OFF as int, METADATA_LEN_OFF as int + 2))
}

/// The persisted metadata text.
pub open spec fn spec_field_metadata(bytes: Seq<u8>) -> Seq<u8> {
    bytes.subrange(METADATA_OFF as int, METADATA_OFF + spec_field_metadata_len(bytes) as int)
}

/// The record whose persisted image `bytes` is: every field of `r` stands
/// at its fixed offset, the metadata is length-prefixed, and the bytes
/// after it are zero padding up to the fixed record size.
pub open spec fn spec_record_matches_layout(r: EscrowRecord, bytes: Seq<u8>) -> bool {
    &&& bytes.len() == RECORD_LEN
    &&& bytes[VERSION_OFF as int] == RECORD_VERSION
    &&& spec_state_of_byte(bytes[STATE_OFF as int]) == Some(r.state)
    &&& bytes[AUTHORITY_BUMP_OFF as int] == r.authority_bump
    &&& bytes[VAULT_BUMP_OFF as int] == r.vault_bump
    &&& spec_position_of_byte(bytes[FIRST_POSITION_OFF as int]) == Some(r.first_position)
    &&& spec_position_of_byte(bytes[SECOND_POSITION_OFF as int]) == Some(r.second_position)
    &&& spec_field_address(bytes, PROGRAM_ID_OFF as int) == r.program_id@
    &&& spec_field_address(bytes, RECORD_ID_OFF as int) == r.record_id@
    &&& spec_field_address(bytes, DEPOSITOR_OFF as int) == r.depositor@
    &&& spec_field_address(bytes, AUTHORITY_OFF as int) == r.authority@
    &&& spec_field_address(bytes, VAULT_OFF as int) == r.vault@
    &&& bytes.subrange(COUNTERPARTY_TAG_OFF as int, COUNTERPARTY_TAG_OFF as int + 33)
        == spec_opt_address_bytes(r.counterparty)
    &&& bytes.subrange(WINNER_TAG_OFF as int, WINNER_TAG_OFF as int + 33)
        == spec_opt_address_bytes(r.winner)
    &&& spec_field_u64(bytes, EXPECTED_AMOUNT_OFF as int) == r.expected_amount
    &&& spec_field_u64(bytes, ACCEPT_AMOUNT_OFF as int) == r.accept_amount
    &&& spec_field_u64(bytes, DEPOSITED_AMOUNT_OFF as int) == r.deposited_amount
    &&& spec_field_u64(bytes, ACCEPTED_AMOUNT_OFF as int) == r.accepted_amount
    &&& spec_field_u64(bytes, PAYOUT_AMOUNT_OFF as int) == r.payout_amount
    &&& spec_field_u64(bytes, UNLOCK_TIME_OFF as int) == r.unlock_time
    &&& spec_field_u64(bytes, TIMEOUT_TIME_OFF as int) == r.timeout_time
    &&& spec_field_metadata_len(bytes) as int == r.metadata@.len() as int
    &&& spec_field_metadata(bytes) == r.metadata@
    &&& forall|i: int|
        METADATA_OFF + r.metadata@.len() <= i < RECORD_LEN ==> bytes[i] == 0
}

/// Appends an address's bytes.
fn push_address(out: &mut Vec<u8>, a: &Address)
    ensures
        final(out)@ == old(out)@ + a@,
{
    let mut i: usize = 0;
    while i < 32
        invariant
            i <= 32,
            out@.len() == old(out)@.len() + i,
            out@ == old(out)@ + a@.take(i as int),
        decreases 32 - i,
    {
        out.push(a.bytes[i]);
        proof {
            assert(old(out)@ + a@.take(i as int) + seq![a.bytes@[i as int]] =~= old(out)@
                + a@.take(i as int + 1));
        }
        i += 1;
    }
    proof {
        assert(a@.take(32) =~= a@);
    }
}

/// Appends a byte vector's contents.
fn push_bytes(out: &mut Vec<u8>, m: &Vec<u8>)
    ensures
        final(out)@ == old(out)@ + m@,
{
    let mut i: usize = 0;
    while i < m.len()
        invariant
            i <= m@.len(),
            out@ == old(out)@ + m@.take(i as int),
        decreases m@.len() - i,
    {
        out.push(m[i]);
        proof {
            assert(old(out)@ + m@.take(i as int) + seq![m@[i as int]] =~= old(out)@ + m@.take(
                i as int + 1,
            ));
        }
        i += 1;
    }
    proof {
        assert(m@.take(m@.len() as int) =~= m@);
    }
}

/// Appends `n` zero bytes.
fn push_zeros(out: &mut Vec<u8>, n: usize)
    ensures
        final(out)@ == old(out)@ + Seq::new(n as nat, |i: int| 0u8),
{
    let mut i: usize = 0;
    while i < n
        invariant
            i <= n,
            out@ == old(out)@ + Seq::new(i as nat, |j: int| 0u8),
        decreases n - i,
    {
        out.push(0);
        proof {
            assert(old(out)@ + Seq::new(i as nat, |j: int| 0u8) + seq![0u8] =~= old(out)@
                + Seq::new(i as nat + 1, |j: int| 0u8));
        }
        i += 1;
    }
}

/// Appends a little-endian amount.
fn push_u64(out: &mut Vec<u8>, x: u64)
    ensures
        final(out)@ == old(out)@ + spec_u64_to_le_bytes(x),
{
    let mut b = u64_to_le_bytes(x);
    out.append(&mut b);
}

/// Appends a little-endian length prefix.
fn push_u16(out: &mut Vec<u8>, x: u16)
    ensures
        final(out)@ == old(out)@ + spec_u16_to_le_bytes(x),
{
    let mut b = u16_to_le_bytes(x);
    out.append(&mut b);
}

/// The wire encoding of one optional address region, written by the
/// encoder.
fn push_opt_address(out: &mut Vec<u8>, a: &Option<Address>)
    ensures
        final(out)@ == old(out)@ + spec_opt_address_bytes(*a),
{
    match a {
        Some(x) => {
            out.push(1);
            push_address(out, x);
            proof {
                assert(old(out)@ + seq![1u8] + x@ =~= old(out)@ + spec_opt_address_bytes(*a));
            }
        },
        None => {
            out.push(0);
            push_zeros(out, 32);
            proof {
                assert(old(out)@ + seq![0u8] + Seq::new(32, |i: int| 0u8) =~= old(out)@
                    + spec_opt_address_bytes(*a));
            }
        },
    }
}

/// Writes a record's persisted image: the fixed-offset header, the
/// fixed-width address and amount fields, and the length-prefixed,
/// zero-padded metadata, `RECORD_LEN` bytes in all.
#[verifier::rlimit(100)]
pub fn encode_record(r: &EscrowRecord) -> (out: Vec<u8>)
    requires
        spec_record_wf(*r),
    ensures
        out@.len() == RECORD_LEN,
        spec_record_matches_layout(*r, out@),
{
    let mut out: Vec<u8> = Vec::new();
    out.push(RECORD_VERSION);
    out.push(state_byte(r.state));
    out.push(r.authority_bump);
    out.push(r.vault_bump);
    out.push(position_byte(&r.first_position));
    out.push(position_byte(&r.second_position));
    push_address(&mut out, &r.program_id);
    push_address(&mut out, &r.record_id);
    push_address(&mut out, &r.depositor);
    push_address(&mut out, &r.authority);
    push_address(&mut out, &r.vault);
    push_opt_address(&mut out, &r.counterparty);
    push_opt_address(&mut out, &r.winner);
    push_u64(&mut out, r.expected_amount);
    push_u64(&mut out, r.accept_amount);
    push_u64(&mut out, r.deposited_amount);
    push_u64(&mut out, r.accepted_amount);
    push_u64(&mut out, r.payout_amount);
    push_u64(&mut out, r.unlock_time);
    push_u64(&mut out, r.timeout_time);
    push_u16(&mut out, r.metadata.len() as u16);
    push_bytes(&mut out, &r.metadata);
    push_zeros(&mut out, MAX_METADATA_LEN - r.metadata.len());
    proof {
        lemma_auto_spec_u64_to_from_le_bytes();
        lemma_auto_spec_u16_to_from_le_bytes();
        assert(out@.len() == RECORD_LEN);
        assert(spec_field_address(out@, PROGRAM_ID_OFF as int) =~= r.program_id@);
        assert(spec_field_address(out@, RECORD_ID_OFF as int) =~= r.record_id@);
        assert(spec_field_address(out@, DEPOSITOR_OFF as int) =~= r.depositor@);
        assert(spec_field_address(out@, AUTHORITY_OFF as int) =~= r.authority@);
        assert(spec_field_address(out@, VAULT_OFF as int) =~= r.vault@);
        assert(out@.subrange(COUNTERPARTY_TAG_OFF as int, COUNTERPARTY_TAG_OFF as int + 33)
            =~= spec_opt_address_bytes(r.counterparty));
        assert(out@.subrange(WINNER_TAG_OFF as int, WINNER_TAG_OFF as int + 33)
            =~= spec_opt_address_bytes(r.winner));
        assert(out@.subrange(EXPECTED_AMOUNT_OFF as int, EXPECTED_AMOUNT_OFF as int + 8)
            =~= spec_u64_to_le_bytes(r.expected_amount));
        assert(out@.subrange(ACCEPT_AMOUNT_OFF as int, ACCEPT_AMOUNT_OFF as int + 8)
            =~= spec_u64_to_le_bytes(r.accept_amount));
        assert(out@.subrange(DEPOSITED_AMOUNT_OFF as int, DEPOSITED_AMOUNT_OFF as int + 8)
            =~= spec_u64_to_le_bytes(r.deposited_amount));
        assert(out@.subrange(ACCEPTED_AMOUNT_OFF as int, ACCEPTED_AMOUNT_OFF as int + 8)
            =~= spec_u64_to_le_bytes(r.accepted_amount));
        assert(out@.subrange(PAYOUT_AMOUNT_OFF as int, PAYOUT_AMOUNT_OFF as int + 8)
            =~= spec_u64_to_le_bytes(r.payout_amount));
        assert(out@.subrange(UNLOCK_TIME_OFF as int, UNLOCK_TIME_OFF as int + 8)
            =~= spec_u64_to_le_bytes(r.unlock_time));
        assert(out@.subrange(TIMEOUT_TIME_OFF as int, TIMEOUT_TIME_OFF as int + 8)
            =~= spec_u64_to_le_bytes(r.timeout_time));
        assert(out@.subrange(METADATA_LEN_OFF as int, METADATA_LEN_OFF as int + 2)
            =~= spec_u16_to_le_bytes((r.metadata@.len() as u16)));
        assert(spec_field_metadata_len(out@) as int == r.metadata@.len() as int);
        assert(spec_field_metadata(out@) =~= r.metadata@);
    }
    out
}

/// The executable inverse of `spec_state_byte` on persisted bytes.
fn state_of_byte(b: u8) -> (out: Option<LifecycleState>)
    ensures
        out == spec_state_of_byte(b),
{
    if b == 1 {
        Some(LifecycleState::Funded)
    } else if b == 2 {
        Some(LifecycleState::Accepted)
    } else if b == 3 {
        Some(LifecycleState::Settled)
    } else if b == 4 {
        Some(LifecycleState::Cancelled)
    } else if b == 5 {
        Some(LifecycleState::Expired)
    } else {
        None
    }
}

/// The executable inverse of `spec_position_byte` on persisted bytes.
fn position_of_byte(b: u8) -> (out: Option<Option<ParticipantPosition>>)
    ensures
        out == spec_position_of_byte(b),
{
    if b == 0 {
        Some(None)
    } else if b == 1 {
        Some(Some(ParticipantPosition::Long))
    } else if b == 2 {
        Some(Some(ParticipantPosition::Short))
    } else {
        None
    }
}

/// Reads the address persisted at `off`.
fn read_address(bytes: &Vec<u8>, off: usize) -> (a: Address)
    requires
        off + 32 <= bytes@.len(),
    ensures
        a@ == spec_field_address(bytes@, off as int),
{
    let n = bytes.len();
    let mut arr: [u8; 32] = [0; 32];
    let mut i: usize = 0;
    while i < 32
        invariant
            i <= 32,
            off + 32 <= n <= usize::MAX,
            n == bytes@.len(),
            forall|j: int| 0 <= j < i ==> arr@[j] == bytes@[off + j],
        decreases 32 - i,
    {
        arr[i] = bytes[off + i];
        i += 1;
    }
    let a = Address { bytes: arr };
    proof {
        assert(a@ =~= spec_field_address(bytes@, off as int));
    }
    a
}

/// Reads the amount persisted at `off`.
fn read_u64_at(bytes: &Vec<u8>, off: usize) -> (x: u64)
    requires
        off + 8 <= bytes@.len(),
    ensures
        x == spec_field_u64(bytes@, off as int),
{
    let n = bytes.len();
    u64_from_le_bytes(slice_subrange(bytes.as_slice(), off, off + 8))
}

/// Reads the optional address region persisted at `off`: a presence tag
/// followed by an address or by 32 zero bytes.  `None` means the region is
/// no optional-address encoding at all.
fn read_opt_address(bytes: &Vec<u8>, off: usize) -> (out: Option<Option<Address>>)
    requires
        off + 33 <= bytes@.len(),
    ensures
        out matches Some(o) ==> bytes@.subrange(off as int, off as int + 33)
            == spec_opt_address_bytes(o),
        out is None ==> forall|o: Option<Address>|
            bytes@.subrange(off as int, off as int + 33) != spec_opt_address_bytes(o),
{
    let n = bytes.len();
    let ghost region = bytes@.subrange(off as int, off as int + 33);
    let tag = bytes[off];
    if tag == 1 {
        let a = read_address(bytes, off + 1);
        proof {
            assert(region =~= seq![1u8] + a@);
        }
        Some(Some(a))
    } else if tag == 0 {
        let mut i: usize = off + 1;
        while i < off + 33
            invariant_except_break
                forall|j: int| off + 1 <= j < i ==> bytes@[j] == 0,
            invariant
                off + 1 <= i <= off + 33,
                off + 33 <= bytes@.len(),
                bytes@.len() <= usize::MAX,
            ensures
                off + 33 <= bytes@.len(),
                i <= off + 33,
                i < off + 33 ==> bytes@[i as int] != 0,
                i == off + 33 ==> forall|j: int| off + 1 <= j < off + 33 ==> bytes@[j] == 0,
            decreases off + 33 - i,
        {
            if bytes[i] != 0 {
                break;
            }
            i += 1;
        }
        if i < off + 33 {
            proof {
                assert forall|o: Option<Address>| region != spec_opt_address_bytes(o) by {
                    match o {
                        Some(x) => {
                            assert(spec_opt_address_bytes(o)[0] == 1);
                            assert(region[0] == 0);
                        },
                        None => {
                            assert(spec_opt_address_bytes(o)[i - off] == 0);
                            assert(region[i - off] == bytes@[i as int]);
                        },
                    }
                }
            }
            None
        } else {
            proof {
                assert(region =~= seq![0u8] + Seq::new(32, |k: int| 0u8));
            }
            Some(None)
        }
    } else {
        proof {
            assert forall|o: Option<Address>| region != spec_opt_address_bytes(o) by {
                assert(region[0] == tag);
                match o {
                    Some(x) => {
                        assert(spec_opt_address_bytes(o)[0] == 1);
                    },
                    None => {
                        assert(spec_opt_address_bytes(o)[0] == 0);
                    },
                }
            }
        }
        None
    }
}

/// The first byte of an optional-address region is its presence tag.
proof fn lemma_opt_address_bytes_tag(a: Option<Address>)
    ensures
        spec_opt_address_bytes(a).len() == 33,
        a is Some ==> spec_opt_address_bytes(a)[0] == 1,
        a is None ==> spec_opt_address_bytes(a)[0] == 0,
{
    match a {
        Some(x) => {
            assert((seq![1u8] + x@)[0] == 1);
        },
        None => {
            assert((seq![0u8] + Seq::new(32, |i: int| 0u8))[0] == 0);
        },
    }
}

/// Reads a persisted record back: checks the version, every wire byte, the
/// metadata bounds and padding, and the record invariant, and returns the
/// record whose image the bytes are.  The result is `None` exactly when no
/// well-formed record has this image.
#[verifier::rlimit(100)]
pub fn decode_record(bytes: &Vec<u8>) -> (out: Option<EscrowRecord>)
    ensures
        out matches Some(rec) ==> spec_record_wf(rec) && spec_record_matches_layout(rec, bytes@),
        out is None ==> forall|r0: EscrowRecord|
            !(spec_record_wf(r0) && #[trigger] spec_record_matches_layout(r0, bytes@)),
{
    proof {
        lemma_auto_spec_u64_to_from_le_bytes();
        lemma_auto_spec_u16_to_from_le_bytes();
    }
    if bytes.len() != RECORD_LEN {
        return None;
    }
    if bytes[VERSION_OFF] != RECORD_VERSION {
        return None;
    }
    let state = match state_of_byte(bytes[STATE_OFF]) {
        None => {
            return None;
        },
        Some(s) => s,
    };
    let authority_bump = bytes[AUTHORITY_BUMP_OFF];
    let vault_bump = bytes[VAULT_BUMP_OFF];
    let first_position = match position_of_byte(bytes[FIRST_POSITION_OFF]) {
        None => {
            return None;
        },
        Some(p) => p,
    };
    let second_position = match position_of_byte(bytes[SECOND_POSITION_OFF]) {
        None => {
            return None;
        },
        Some(p) => p,
    };
    let program_id = read_address(bytes, PROGRAM_ID_OFF);
    let record_id = read_address(bytes, RECORD_ID_OFF);
    let depositor = read_address(bytes, DEPOSITOR_OFF);
    let authority = read_address(bytes, AUTHORITY_OFF);
    let vault = read_address(bytes, VAULT_OFF);
    let counterparty = match read_opt_address(bytes, COUNTERPARTY_TAG_OFF) {
        None => {
            return None;
        },
        Some(o) => o,
    };
    let winner = match read_opt_address(bytes, WINNER_TAG_OFF) {
        None => {
            return None;
        },
        Some(o) => o,
    };
    let expected_amount = read_u64_at(bytes, EXPECTED_AMOUNT_OFF);
    let accept_amount = read_u64_at(bytes, ACCEPT_AMOUNT_OFF);
    let deposited_amount = read_u64_at(bytes, DEPOSITED_AMOUNT_OFF);
    let accepted_amount = read_u64_at(bytes, ACCEPTED_AMOUNT_OFF);
    let payout_amount = read_u64_at(bytes, PAYOUT_AMOUNT_OFF);
    let unlock_time = read_u64_at(bytes, UNLOCK_TIME_OFF);
    let timeout_time = read_u64_at(bytes, TIMEOUT_TIME_OFF);
    let mlen = u16_from_le_bytes(
        slice_subrange(bytes.as_slice(), METADATA_LEN_OFF, METADATA_OFF),
    ) as usize;
    if mlen > MAX_METADATA_LEN {
        return None;
    }
    let metadata = slice_to_vec(
        slice_subrange(bytes.as_slice(), METADATA_OFF, METADATA_OFF + mlen),
    );
    if !metadata_valid(&metadata) {
        return None;
    }
    let mut i: usize = METADATA_OFF + mlen;
    while i < RECORD_LEN
        invariant
            METADATA_OFF + mlen <= i <= RECORD_LEN,
            bytes@.len() == RECORD_LEN,
            mlen as int == spec_field_metadata_len(bytes@) as int,
            forall|j: int| METADATA_OFF + mlen <= j < i ==> bytes@[j] == 0,
        decreases RECORD_LEN - i,
    {
        if bytes[i] != 0 {
            return None;
        }
        i += 1;
    }
    if expected_amount == 0 {
        return None;
    }
    if unlock_time >= timeout_time {
        return None;
    }
    if deposited_amount > expected_amount {
        return None;
    }
    if accepted_amount > accept_amount {
        return None;
    }
    if expected_amount > u64::MAX - accept_amount {
        return None;
    }
    match state {
        LifecycleState::Funded => {
            if counterparty.is_some() || winner.is_some() || second_position.is_some()
                || accepted_amount != 0 || payout_amount != 0 {
                proof {
                    assert forall|r0: EscrowRecord|
                        !(spec_record_wf(r0) && #[trigger] spec_record_matches_layout(
                            r0,
                            bytes@,
                        )) by {
                        if spec_record_wf(r0) && spec_record_matches_layout(r0, bytes@) {
                            lemma_opt_address_bytes_tag(r0.counterparty);
                            lemma_opt_address_bytes_tag(counterparty);
                            lemma_opt_address_bytes_tag(r0.winner);
                            lemma_opt_address_bytes_tag(winner);
                        }
                    }
                }
                return None;
            }
        },
        LifecycleState::Accepted => {
            if counterparty.is_none() || winner.is_some() || accepted_amount != accept_amount
                || payout_amount != 0 {
                proof {
                    assert forall|r0: EscrowRecord|
                        !(spec_record_wf(r0) && #[trigger] spec_record_matches_layout(
                            r0,
                            bytes@,
                        )) by {
                        if spec_record_wf(r0) && spec_record_matches_layout(r0, bytes@) {
                            lemma_opt_address_bytes_tag(r0.counterparty);
                            lemma_opt_address_bytes_tag(counterparty);
                            lemma_opt_address_bytes_tag(r0.winner);
                            lemma_opt_address_bytes_tag(winner);
                        }
                    }
                }
                return None;
            }
        },
        _ => {},
    }
    let rec = EscrowRecord {
        program_id,
        record_id,
        depositor,
        counterparty,
        winner,
        expected_amount,
        accept_amount,
        deposited_amount,
        accepted_amount,
        payout_amount,
        unlock_time,
        timeout_time,
        authority,
        authority_bump,
        vault,
        vault_bump,
        first_position,
        second_position,
        state,
        metadata,
    };
    Some(rec)
}

/// The executable wire byte of a state.
fn state_byte(s: LifecycleState) -> (b: u8)
    ensures
        b == spec_state_byte(s),
{
    match s {
        LifecycleState::Uninitialized => 0,
        LifecycleState::Funded => 1,
        LifecycleState::Accepted => 2,
        LifecycleState::Settled => 3,
        LifecycleState::Cancelled => 4,
        LifecycleState::Expired => 5,
    }
}

/// The executable wire byte of an optional position.
fn position_byte(p: &Option<ParticipantPosition>) -> (b: u8)
    ensures
        b == spec_position_byte(*p),
{
    match p {
        None => 0,
        Some(ParticipantPosition::Long) => 1,
        Some(ParticipantPosition::Short) => 2,
    }
}

} // verus!
