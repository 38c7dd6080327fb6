use escrow_engine::account::{Address, Caller};
use escrow_engine::engine::{accept, deposit, initialize, Balances};
use escrow_engine::layout::{decode_record, encode_record, RECORD_LEN, RECORD_VERSION};
use escrow_engine::state::{EscrowRecord, LifecycleState, ParticipantPosition};

fn addr(n: u8) -> Address {
    Address { bytes: [n; 32] }
}

fn signer(n: u8) -> Caller {
    Caller { address: addr(n), is_signer: true }
}

fn sample_record() -> EscrowRecord {
    initialize(
        &addr(9),
        &addr(1),
        &signer(2),
        b"persisted escrow".to_vec(),
        1000,
        1000,
        Some(ParticipantPosition::Long),
        10_000,
        100,
        1000,
    )
    .expect("initialize")
}

fn assert_same_record(a: &EscrowRecord, b: &EscrowRecord) {
    assert_eq!(a.program_id.bytes, b.program_id.bytes);
    assert_eq!(a.record_id.bytes, b.record_id.bytes);
    assert_eq!(a.depositor.bytes, b.depositor.bytes);
    assert_eq!(a.counterparty.map(|x| x.bytes), b.counterparty.map(|x| x.bytes));
    assert_eq!(a.winner.map(|x| x.bytes), b.winner.map(|x| x.bytes));
    assert_eq!(a.expected_amount, b.expected_amount);
    assert_eq!(a.accept_amount, b.accept_amount);
    assert_eq!(a.deposited_amount, b.deposited_amount);
    assert_eq!(a.accepted_amount, b.accepted_amount);
    assert_eq!(a.payout_amount, b.payout_amount);
    assert_eq!(a.unlock_time, b.unlock_time);
    assert_eq!(a.timeout_time, b.timeout_time);
    assert_eq!(a.authority.bytes, b.authority.bytes);
    assert_eq!(a.authority_bump, b.authority_bump);
    assert_eq!(a.vault.bytes, b.vault.bytes);
    assert_eq!(a.vault_bump, b.vault_bump);
    assert_eq!(a.first_position, b.first_position);
    assert_eq!(a.second_position, b.second_position);
    assert_eq!(a.state, b.state);
    assert_eq!(a.metadata, b.metadata);
}

#[test]
fn encode_has_the_fixed_size_and_header() {
    let rec = sample_record();
    let bytes = encode_record(&rec);
    assert_eq!(bytes.len(), RECORD_LEN);
    assert_eq!(bytes[0], RECORD_VERSION);
    // Funded state byte and the two bumps sit in the fixed header.
    assert_eq!(bytes[1], 1);
    assert_eq!(bytes[2], rec.authority_bump);
    assert_eq!(bytes[3], rec.vault_bump);
}

#[test]
fn decode_inverts_encode_for_a_funded_record() {
    let rec = sample_record();
    let bytes = encode_record(&rec);
    let back = decode_record(&bytes).expect("decode");
    assert_same_record(&rec, &back);
}

#[test]
fn decode_inverts_encode_for_an_accepted_record() {
    let rec = sample_record();
    let auth = rec.authority;
    let vault = rec.vault;
    let b0 = Balances { depositor: 5000, counterparty: 5000, vault: 0, fee_vault: 0 };
    let (rec, bal) = deposit(rec, b0, &signer(2), &addr(9), &auth, &vault, 1000)
        .expect("deposit");
    let (rec, _) = accept(
        rec,
        bal,
        &signer(3),
        &addr(9),
        &auth,
        &vault,
        1000,
        Some(ParticipantPosition::Short),
    )
    .expect("accept");
    assert_eq!(rec.state, LifecycleState::Accepted);
    let bytes = encode_record(&rec);
    let back = decode_record(&bytes).expect("decode");
    assert_same_record(&rec, &back);
}

#[test]
fn decode_rejects_corrupted_images() {
    let rec = sample_record();
    let bytes = encode_record(&rec);

    let mut wrong_len = bytes.clone();
    wrong_len.pop();
    assert!(decode_record(&wrong_len).is_none());

    let mut wrong_version = bytes.clone();
    wrong_version[0] = 2;
    assert!(decode_record(&wrong_version).is_none());

    let mut wrong_state = bytes.clone();
    wrong_state[1] = 0;
    assert!(decode_record(&wrong_state).is_none());
    wrong_state[1] = 9;
    assert!(decode_record(&wrong_state).is_none());

    let mut wrong_tag = bytes.clone();
    wrong_tag[166] = 7;
    assert!(decode_record(&wrong_tag).is_none());

    // A stray byte inside an absent counterparty's zero region.
    let mut dirty_region = bytes.clone();
    dirty_region[170] = 1;
    assert!(decode_record(&dirty_region).is_none());

    // A stray byte in the metadata padding.
    let mut dirty_padding = bytes.clone();
    let last = dirty_padding.len() - 1;
    dirty_padding[last] = 1;
    assert!(decode_record(&dirty_padding).is_none());

    // A deposited amount above the expected amount breaks the invariant.
    let mut bad_amount = bytes.clone();
    bad_amount[255] = 0xff;
    assert!(decode_record(&bad_amount).is_none());
}
