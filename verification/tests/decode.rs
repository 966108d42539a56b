use escrow::error::{EscrowError, ProcessorError};
use escrow::instruction::EscrowInstruction;

const INVALID: Result<EscrowInstruction, ProcessorError> =
    Err(ProcessorError::Escrow(EscrowError::InvalidInstruction));

#[test]
fn decodes_init_escrow_of_500() {
    assert_eq!(
        EscrowInstruction::unpack(&[0, 244, 1, 0, 0, 0, 0, 0, 0]),
        Ok(EscrowInstruction::InitEscrow { amount: 500 })
    );
}

#[test]
fn decodes_exchange_of_500() {
    assert_eq!(
        EscrowInstruction::unpack(&[1, 244, 1, 0, 0, 0, 0, 0, 0]),
        Ok(EscrowInstruction::Exchange { amount: 500 })
    );
}

#[test]
fn refuses_every_payload_shorter_than_nine_bytes() {
    let full = [1u8, 244, 1, 0, 0, 0, 0, 0, 0];
    for len in 0..9 {
        assert_eq!(EscrowInstruction::unpack(&full[..len]), INVALID, "length {}", len);
    }
}

#[test]
fn refuses_every_selector_but_0_and_1() {
    for tag in 2..=255u8 {
        assert_eq!(
            EscrowInstruction::unpack(&[tag, 244, 1, 0, 0, 0, 0, 0, 0]),
            INVALID,
            "selector {}",
            tag
        );
    }
}

#[test]
fn ignores_what_follows_the_amount() {
    assert_eq!(
        EscrowInstruction::unpack(&[0, 1, 0, 0, 0, 0, 0, 0, 0, 77, 78, 79]),
        Ok(EscrowInstruction::InitEscrow { amount: 1 })
    );
}

#[test]
fn accepts_an_amount_of_zero() {
    assert_eq!(
        EscrowInstruction::unpack(&[0; 9]),
        Ok(EscrowInstruction::InitEscrow { amount: 0 })
    );
}

#[test]
fn reads_the_amount_least_significant_byte_first() {
    assert_eq!(
        EscrowInstruction::unpack(&[1, 1, 2, 3, 4, 5, 6, 7, 8]),
        Ok(EscrowInstruction::Exchange { amount: 0x0807_0605_0403_0201 })
    );
    assert_eq!(
        EscrowInstruction::unpack(&[1, 255, 255, 255, 255, 255, 255, 255, 255]),
        Ok(EscrowInstruction::Exchange { amount: u64::MAX })
    );
    for amount in [0u64, 1, 255, 256, 500, 65_535, 1 << 32, u64::MAX - 1] {
        let mut payload = vec![0u8];
        payload.extend_from_slice(&amount.to_le_bytes());
        assert_eq!(
            EscrowInstruction::unpack(&payload),
            Ok(EscrowInstruction::InitEscrow { amount })
        );
    }
}
