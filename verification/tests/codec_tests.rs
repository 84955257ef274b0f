//! Byte-level codecs: little-endian fields, the persisted pool record, and
//! the fixed-size instruction payloads.

use pinocchio_amm::bytes::{push_u16_le, push_u64_le, read_u16_le, read_u64_le, u64_le_array};
use pinocchio_amm::error::{AmmError, CustomError};
use pinocchio_amm::instruction::deposit::DepositInstructionData;
use pinocchio_amm::instruction::initialize::InitializeInstructionData;
use pinocchio_amm::instruction::swap::SwapInstructionData;
use pinocchio_amm::instruction::withdraw::WithdrawInstructionData;
use pinocchio_amm::instruction::AMMInstruction;
use pinocchio_amm::state::Config;

#[test]
fn test_custom_error_conversion() {
    assert_eq!(
        AmmError::from(CustomError::InvalidSwap),
        AmmError::Custom(CustomError::InvalidSwap)
    );
    assert_eq!(
        AmmError::from(CustomError::InvalidDeposit),
        AmmError::Custom(CustomError::InvalidDeposit)
    );
}

#[test]
fn test_discriminator_decoding() {
    assert_eq!(AMMInstruction::try_from(&0), Ok(AMMInstruction::Initialize));
    assert_eq!(AMMInstruction::try_from(&1), Ok(AMMInstruction::Deposit));
    assert_eq!(AMMInstruction::try_from(&2), Ok(AMMInstruction::Swap));
    assert_eq!(AMMInstruction::try_from(&3), Ok(AMMInstruction::Withdraw));
    assert_eq!(
        AMMInstruction::try_from(&4),
        Err(AmmError::InvalidInstructionData)
    );
}

#[test]
fn test_le_known_values() {
    assert_eq!(read_u64_le(&[0x78, 0x56, 0x34, 0x12, 0, 0, 0, 0], 0), 0x12345678);
    assert_eq!(read_u16_le(&[0xF4, 0x01], 0), 500);
    assert_eq!(u64_le_array(1), [1, 0, 0, 0, 0, 0, 0, 0]);
    assert_eq!(
        u64_le_array(0x0102030405060708),
        [8, 7, 6, 5, 4, 3, 2, 1]
    );
}

#[test]
fn test_le_roundtrip() {
    for v in [0u64, 1, 500, u64::MAX, 0xDEADBEEF, 1 << 63] {
        let mut out: Vec<u8> = Vec::new();
        push_u64_le(&mut out, v);
        assert_eq!(read_u64_le(&out, 0), v);
    }
    for v in [0u16, 1, 500, u16::MAX] {
        let mut out: Vec<u8> = Vec::new();
        push_u16_le(&mut out, v);
        assert_eq!(read_u16_le(&out, 0), v);
    }
}

#[test]
fn test_config_roundtrip() {
    let c = Config {
        seed: 1,
        authority: [7; 32],
        mint_x: [2; 32],
        mint_y: [3; 32],
        fee: 500,
        config_bump: 254,
    };
    let bytes = c.to_bytes();
    assert_eq!(bytes.len(), Config::LEN);
    let loaded = Config::load(&bytes).unwrap();
    assert_eq!(loaded, c);
}

#[test]
fn test_config_layout() {
    // The record is byte-packed little-endian: seed, authority, the two
    // asset identifiers, fee, bump.
    let c = Config {
        seed: 0x0102030405060708,
        authority: [0xAA; 32],
        mint_x: [0xBB; 32],
        mint_y: [0xCC; 32],
        fee: 0x1234,
        config_bump: 0xFE,
    };
    let bytes = c.to_bytes();
    assert_eq!(&bytes[0..8], &[8, 7, 6, 5, 4, 3, 2, 1]);
    assert_eq!(&bytes[8..40], &[0xAA; 32]);
    assert_eq!(&bytes[40..72], &[0xBB; 32]);
    assert_eq!(&bytes[72..104], &[0xCC; 32]);
    assert_eq!(&bytes[104..106], &[0x34, 0x12]);
    assert_eq!(bytes[106], 0xFE);
}

#[test]
fn test_config_load_rejects_wrong_size() {
    assert_eq!(Config::load(&[0u8; 106]), Err(AmmError::InvalidAccountData));
    assert_eq!(Config::load(&[0u8; 108]), Err(AmmError::InvalidAccountData));
    assert_eq!(Config::load(&[]), Err(AmmError::InvalidAccountData));
}

#[test]
fn test_payload_parsing() {
    let mut d: Vec<u8> = Vec::new();
    push_u64_le(&mut d, 100);
    push_u64_le(&mut d, 50);
    push_u64_le(&mut d, 51);
    let ix = DepositInstructionData::try_from_bytes(&d).unwrap();
    assert_eq!(ix.amount, 100);
    assert_eq!(ix.max_x, 50);
    assert_eq!(ix.max_y, 51);
    let wx = WithdrawInstructionData::try_from_bytes(&d).unwrap();
    assert_eq!((wx.amount, wx.max_x, wx.max_y), (100, 50, 51));

    let mut s: Vec<u8> = vec![1];
    push_u64_le(&mut s, 100);
    push_u64_le(&mut s, 90);
    let ix = SwapInstructionData::try_from_bytes(&s).unwrap();
    assert_eq!((ix.is_x, ix.amount, ix.min), (1, 100, 90));

    let mut i: Vec<u8> = Vec::new();
    push_u64_le(&mut i, 1);
    push_u16_le(&mut i, 500);
    i.push(255);
    let ix = InitializeInstructionData::try_from_bytes(&i).unwrap();
    assert_eq!((ix.seed, ix.fee, ix.config_bump), (1, 500, 255));
}

#[test]
fn test_payload_parsing_rejects_wrong_size() {
    assert_eq!(
        DepositInstructionData::try_from_bytes(&[0u8; 23]),
        Err(AmmError::InvalidInstructionData)
    );
    assert_eq!(
        SwapInstructionData::try_from_bytes(&[0u8; 16]),
        Err(AmmError::InvalidInstructionData)
    );
    assert_eq!(
        InitializeInstructionData::try_from_bytes(&[0u8; 12]),
        Err(AmmError::InvalidInstructionData)
    );
    assert_eq!(
        WithdrawInstructionData::try_from_bytes(&[0u8; 0]),
        Err(AmmError::InvalidInstructionData)
    );
}
