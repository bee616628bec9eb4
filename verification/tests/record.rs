use escrow::account::{read_key, same_key};
use escrow::error::ProgramFailure;
use escrow::state::{push_key, Escrow, ESCROW_LEN};

fn sample() -> Escrow {
    Escrow {
        is_initialized: true,
        initializer_pubkey: [1u8; 32],
        temp_token_account_pubkey: [2u8; 32],
        initializer_token_to_receive_account_pubkey: [3u8; 32],
        expected_amount: 1000,
    }
}

fn sample_bytes() -> Vec<u8> {
    let mut bytes = vec![1u8];
    bytes.extend_from_slice(&[1u8; 32]);
    bytes.extend_from_slice(&[2u8; 32]);
    bytes.extend_from_slice(&[3u8; 32]);
    bytes.extend_from_slice(&[232, 3, 0, 0, 0, 0, 0, 0]);
    bytes
}

#[test]
fn record_width_is_105() {
    assert_eq!(ESCROW_LEN, 105);
    assert_eq!(Escrow::LEN, 105);
    assert_eq!(sample().pack().len(), 105);
}

#[test]
fn pack_gives_exact_layout() {
    assert_eq!(sample().pack(), sample_bytes());
}

#[test]
fn pack_of_uninitialized_record_starts_with_zero() {
    let mut record = sample();
    record.is_initialized = false;
    let bytes = record.pack();
    assert_eq!(bytes[0], 0);
    assert_eq!(&bytes[1..], &sample_bytes()[1..]);
}

#[test]
fn unpack_unchecked_reads_layout() {
    assert_eq!(Escrow::unpack_unchecked(&sample_bytes()), Ok(sample()));
}

#[test]
fn unpack_unchecked_tolerates_zero_filled() {
    let record = Escrow::unpack_unchecked(&[0u8; 105]).unwrap();
    assert!(!record.is_initialized());
    assert_eq!(record.expected_amount, 0);
    assert_eq!(record.initializer_pubkey, [0u8; 32]);
}

#[test]
fn unpack_unchecked_tolerates_uninitialized_with_content() {
    let mut bytes = sample_bytes();
    bytes[0] = 0;
    let record = Escrow::unpack_unchecked(&bytes).unwrap();
    assert!(!record.is_initialized);
    assert_eq!(record.temp_token_account_pubkey, [2u8; 32]);
    assert_eq!(record.expected_amount, 1000);
}

#[test]
fn unpack_unchecked_rejects_other_lengths() {
    assert_eq!(Escrow::unpack_unchecked(&[]), Err(ProgramFailure::InvalidAccountData));
    assert_eq!(Escrow::unpack_unchecked(&[0u8; 104]), Err(ProgramFailure::InvalidAccountData));
    assert_eq!(Escrow::unpack_unchecked(&[0u8; 106]), Err(ProgramFailure::InvalidAccountData));
}

#[test]
fn nonzero_flag_counts_as_initialized() {
    let mut bytes = sample_bytes();
    bytes[0] = 2;
    assert!(Escrow::unpack_unchecked(&bytes).unwrap().is_initialized);
}

#[test]
fn strict_unpack_accepts_initialized() {
    assert_eq!(Escrow::unpack(&sample_bytes()), Ok(sample()));
}

#[test]
fn strict_unpack_rejects_uninitialized() {
    assert_eq!(Escrow::unpack(&[0u8; 105]), Err(ProgramFailure::UninitializedAccount));
}

#[test]
fn strict_unpack_rejects_other_lengths() {
    assert_eq!(Escrow::unpack(&[1u8; 10]), Err(ProgramFailure::InvalidAccountData));
}

#[test]
fn unpack_of_pack_is_identity() {
    let record = Escrow {
        is_initialized: true,
        initializer_pubkey: [0xAB; 32],
        temp_token_account_pubkey: [0xCD; 32],
        initializer_token_to_receive_account_pubkey: [0xEF; 32],
        expected_amount: u64::MAX,
    };
    assert_eq!(Escrow::unpack(&record.pack()), Ok(record));
    assert_eq!(Escrow::unpack_unchecked(&record.pack()), Ok(record));
}

#[test]
fn pack_of_unpack_is_identity() {
    let mut bytes: Vec<u8> = (0..105u8).collect();
    bytes[0] = 1;
    let record = Escrow::unpack_unchecked(&bytes).unwrap();
    assert_eq!(record.pack(), bytes);
}

#[test]
fn keys_compare_by_bytes() {
    let mut other = [5u8; 32];
    assert!(same_key(&[5u8; 32], &other));
    other[31] = 6;
    assert!(!same_key(&[5u8; 32], &other));
}

#[test]
fn key_read_at_offset() {
    let bytes: Vec<u8> = (0..40u8).collect();
    let key = read_key(&bytes, 3);
    let expected: Vec<u8> = (3..35u8).collect();
    assert_eq!(key.to_vec(), expected);
}

#[test]
fn key_pushed_after_prefix() {
    let mut out = vec![9u8];
    push_key(&mut out, &[4u8; 32]);
    assert_eq!(out.len(), 33);
    assert_eq!(out[0], 9);
    assert_eq!(&out[1..], &[4u8; 32]);
}
