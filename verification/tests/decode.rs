use escrow::encoding::{push_le_u64, read_le_u64};
use escrow::error::{EscrowError, ProgramFailure};
use escrow::instruction::EscrowInstruction;

const INVALID: ProgramFailure = ProgramFailure::Custom(0);

#[test]
fn empty_buffer_is_invalid() {
    assert_eq!(EscrowInstruction::unpack(&[]), Err(INVALID));
}

#[test]
fn opcode_alone_is_invalid() {
    assert_eq!(EscrowInstruction::unpack(&[0]), Err(INVALID));
}

#[test]
fn seven_payload_bytes_are_invalid() {
    assert_eq!(EscrowInstruction::unpack(&[0, 1, 2, 3, 4, 5, 6, 7]), Err(INVALID));
}

#[test]
fn every_short_length_is_invalid() {
    for len in 1..9usize {
        let buffer = vec![0u8; len];
        assert_eq!(EscrowInstruction::unpack(&buffer), Err(INVALID));
    }
}

#[test]
fn eight_payload_bytes_decode() {
    let buffer = [0u8, 232, 3, 0, 0, 0, 0, 0, 0];
    assert_eq!(
        EscrowInstruction::unpack(&buffer),
        Ok(EscrowInstruction::InitEscrow { amount: 1000 })
    );
}

#[test]
fn trailing_bytes_are_ignored() {
    let buffer = [0u8, 232, 3, 0, 0, 0, 0, 0, 0, 255, 254, 253];
    assert_eq!(
        EscrowInstruction::unpack(&buffer),
        Ok(EscrowInstruction::InitEscrow { amount: 1000 })
    );
}

#[test]
fn amount_is_little_endian() {
    let buffer = [0u8, 1, 2, 3, 4, 5, 6, 7, 8];
    assert_eq!(
        EscrowInstruction::unpack(&buffer),
        Ok(EscrowInstruction::InitEscrow { amount: 0x0807_0605_0403_0201 })
    );
}

#[test]
fn largest_amount_decodes() {
    let buffer = [0u8, 255, 255, 255, 255, 255, 255, 255, 255];
    assert_eq!(
        EscrowInstruction::unpack(&buffer),
        Ok(EscrowInstruction::InitEscrow { amount: u64::MAX })
    );
}

#[test]
fn decoding_agrees_with_std() {
    for amount in [0u64, 1, 255, 256, 1000, 1 << 32, u64::MAX - 1, u64::MAX] {
        let mut buffer = vec![0u8];
        buffer.extend_from_slice(&amount.to_le_bytes());
        assert_eq!(
            EscrowInstruction::unpack(&buffer),
            Ok(EscrowInstruction::InitEscrow { amount })
        );
    }
}

#[test]
fn unknown_opcodes_are_invalid() {
    for tag in 1..=255u8 {
        let buffer = [tag, 232, 3, 0, 0, 0, 0, 0, 0];
        assert_eq!(EscrowInstruction::unpack(&buffer), Err(INVALID));
        assert_eq!(EscrowInstruction::unpack(&[tag]), Err(INVALID));
    }
}

#[test]
fn decoding_is_repeatable() {
    let buffer = [0u8, 9, 8, 7, 6, 5, 4, 3, 2, 1];
    assert_eq!(EscrowInstruction::unpack(&buffer), EscrowInstruction::unpack(&buffer));
    assert_eq!(buffer, [0u8, 9, 8, 7, 6, 5, 4, 3, 2, 1]);
}

#[test]
fn amount_payload_alone() {
    assert_eq!(EscrowInstruction::unpack_amount(&[232, 3, 0, 0, 0, 0, 0, 0]), Ok(1000));
    assert_eq!(EscrowInstruction::unpack_amount(&[232, 3, 0, 0, 0, 0, 0, 0, 9]), Ok(1000));
    assert_eq!(EscrowInstruction::unpack_amount(&[232, 3, 0, 0, 0, 0, 0]), Err(INVALID));
    assert_eq!(EscrowInstruction::unpack_amount(&[]), Err(INVALID));
}

#[test]
fn escrow_error_codes() {
    assert_eq!(EscrowError::InvalidInstruction.code(), 0);
    assert_eq!(EscrowError::NotRentExempt.code(), 1);
    assert_eq!(ProgramFailure::from(EscrowError::InvalidInstruction), ProgramFailure::Custom(0));
    assert_eq!(ProgramFailure::from(EscrowError::NotRentExempt), ProgramFailure::Custom(1));
}

#[test]
fn escrow_error_messages() {
    assert_eq!(EscrowError::InvalidInstruction.message(), "Invalid instruction");
    assert_eq!(
        EscrowError::NotRentExempt.message(),
        "Lamport balance below rent-exempt threshold"
    );
}

#[test]
fn le_u64_read_at_offset() {
    let bytes = [9u8, 9, 1, 0, 0, 0, 0, 0, 0, 128, 9];
    assert_eq!(read_le_u64(&bytes, 2), 0x8000_0000_0000_0001);
}

#[test]
fn le_u64_written_after_prefix() {
    let mut out = vec![7u8];
    push_le_u64(&mut out, 1000);
    assert_eq!(out, vec![7u8, 232, 3, 0, 0, 0, 0, 0, 0]);
    let mut all = Vec::new();
    push_le_u64(&mut all, 0x0102_0304_0506_0708);
    assert_eq!(all, 0x0102_0304_0506_0708u64.to_le_bytes().to_vec());
}
