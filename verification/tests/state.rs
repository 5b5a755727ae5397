use blueshift_native_amm::codec::{put_u16, put_u64, read_i64, read_pubkey, read_u16, read_u64, u64_to_le_array};
use blueshift_native_amm::errors::ProgramError;
use blueshift_native_amm::helpers::AccountInfo;
use blueshift_native_amm::programs::{ID, TOKEN_PROGRAM_ID};
use blueshift_native_amm::pubkey::{pubkey_eq, Pubkey, ZERO_PUBKEY};
use blueshift_native_amm::state::{AmmState, Config, ConfigSeeds};

const MINT_X: Pubkey = [11; 32];
const MINT_Y: Pubkey = [12; 32];
const ADMIN: Pubkey = [9; 32];

#[test]
fn little_endian_fields_match_std() {
    let mut data = vec![0xAAu8];
    data.extend_from_slice(&0x0102030405060708u64.to_le_bytes());
    data.extend_from_slice(&(-2i64).to_le_bytes());
    data.extend_from_slice(&0xBEEFu16.to_le_bytes());
    assert_eq!(read_u64(&data, 1), 0x0102030405060708);
    assert_eq!(read_i64(&data, 9), -2);
    assert_eq!(read_u16(&data, 17), 0xBEEF);
    assert_eq!(read_i64(&i64::MIN.to_le_bytes(), 0), i64::MIN);
    assert_eq!(read_i64(&i64::MAX.to_le_bytes(), 0), i64::MAX);
    assert_eq!(read_u64(&u64::MAX.to_le_bytes(), 0), u64::MAX);
    let mut out = Vec::new();
    put_u64(&mut out, 0x0102030405060708);
    put_u16(&mut out, 0xBEEF);
    assert_eq!(out, vec![8, 7, 6, 5, 4, 3, 2, 1, 0xEF, 0xBE]);
    assert_eq!(u64_to_le_array(258), 258u64.to_le_bytes());
}

#[test]
fn pubkeys_are_read_and_compared_bytewise() {
    let mut data = vec![0u8; 40];
    data[8..40].copy_from_slice(&MINT_X);
    assert_eq!(read_pubkey(&data, 8), MINT_X);
    assert!(pubkey_eq(&MINT_X, &MINT_X));
    assert!(!pubkey_eq(&MINT_X, &MINT_Y));
    let mut near = MINT_X;
    near[31] = 0;
    assert!(!pubkey_eq(&MINT_X, &near));
    assert!(!pubkey_eq(&TOKEN_PROGRAM_ID, &blueshift_native_amm::programs::SPL_TOKEN_2022_ID));
}

#[test]
fn state_bytes_round_trip() {
    for (byte, state) in [
        (0u8, AmmState::Uninitialized),
        (1, AmmState::Initialized),
        (2, AmmState::Disabled),
        (3, AmmState::WithdrawOnly),
    ] {
        assert_eq!(AmmState::from_u8(byte), Some(state));
        assert_eq!(state.to_u8(), byte);
    }
    assert_eq!(AmmState::from_u8(4), None);
    assert!(AmmState::Initialized.allows_trading());
    assert!(!AmmState::WithdrawOnly.allows_trading());
    assert!(AmmState::WithdrawOnly.allows_withdrawal());
    assert!(!AmmState::Disabled.allows_withdrawal());
}

#[test]
fn config_layout_has_fixed_offsets() {
    let config = Config::new(0x0102030405060708, ADMIN, MINT_X, MINT_Y, 0x1234, 254, 253).unwrap();
    let bytes = config.pack();
    assert_eq!(bytes.len(), 109);
    assert_eq!(&bytes[0..8], &[8, 7, 6, 5, 4, 3, 2, 1]);
    assert_eq!(&bytes[8..40], &ADMIN);
    assert_eq!(&bytes[40..72], &MINT_X);
    assert_eq!(&bytes[72..104], &MINT_Y);
    assert_eq!(&bytes[104..106], &[0x34, 0x12]);
    assert_eq!(bytes[106], 1);
    assert_eq!(bytes[107], 254);
    assert_eq!(bytes[108], 253);
    assert_eq!(Config::unpack(&bytes), Ok(config));
    assert!(config.has_authority());
    assert_eq!(config.authority(), &ADMIN);
    assert_eq!(config.config_bump(), 254);
    assert_eq!(
        config.config_seeds(),
        ConfigSeeds { seed: 0x0102030405060708, mint_x: MINT_X, mint_y: MINT_Y, bump: 254 }
    );
}

#[test]
fn config_rejects_ill_formed_records() {
    let bad = Err(ProgramError::InvalidAccountData);
    let good = Config::new(1, ZERO_PUBKEY, MINT_X, MINT_Y, 30, 254, 253).unwrap().pack();
    assert_eq!(Config::unpack(&good[..108]), bad);
    let mut long = good.clone();
    long.push(0);
    assert_eq!(Config::unpack(&long), bad);
    let mut state = good.clone();
    state[106] = 4;
    assert_eq!(Config::unpack(&state), bad);
    let mut same = good.clone();
    same[72..104].copy_from_slice(&MINT_X);
    assert_eq!(Config::unpack(&same), bad);
    let mut fee = good.clone();
    fee[104..106].copy_from_slice(&10_001u16.to_le_bytes());
    assert_eq!(Config::unpack(&fee), bad);
    assert!(Config::unpack(&[0u8; 109]).is_ok());
    assert_eq!(
        Config::new(1, ZERO_PUBKEY, MINT_X, MINT_X, 30, 1, 1),
        Err(ProgramError::InvalidInstructionData)
    );
    assert_eq!(
        Config::new(1, ZERO_PUBKEY, MINT_X, MINT_Y, 10_001, 1, 1),
        Err(ProgramError::InvalidInstructionData)
    );
}

#[test]
fn config_loads_only_from_the_pool_program() {
    let data = Config::new(1, ZERO_PUBKEY, MINT_X, MINT_Y, 30, 254, 253).unwrap().pack();
    let mut account = AccountInfo {
        key: [8; 32],
        owner: ID,
        lamports: 1,
        data,
        is_signer: false,
        is_writable: true,
    };
    let config = Config::load(&account).unwrap();
    assert_eq!(config.state(), AmmState::Initialized);
    account.owner = TOKEN_PROGRAM_ID;
    assert_eq!(Config::load(&account), Err(ProgramError::InvalidAccountOwner));
    account.data.pop();
    assert_eq!(Config::load(&account), Err(ProgramError::InvalidAccountData));
}

#[test]
fn set_inner_overwrites_and_opens() {
    let mut config = Config::unpack(&[0u8; 109]).unwrap();
    assert_eq!(config.state(), AmmState::Uninitialized);
    assert_eq!(config.set_inner(7, ADMIN, MINT_X, MINT_Y, 25, 250, 249), Ok(()));
    assert_eq!(config, Config::new(7, ADMIN, MINT_X, MINT_Y, 25, 250, 249).unwrap());
    assert_eq!(
        config.set_inner(8, ADMIN, MINT_X, MINT_X, 25, 250, 249),
        Err(ProgramError::InvalidInstructionData)
    );
    assert_eq!(
        config.set_inner(8, ADMIN, MINT_X, MINT_Y, 10_001, 250, 249),
        Err(ProgramError::InvalidInstructionData)
    );
    assert_eq!(config, Config::new(7, ADMIN, MINT_X, MINT_Y, 25, 250, 249).unwrap());
}

#[test]
fn custody_confirmation_needs_address_and_canonical_bump() {
    let seeds = ConfigSeeds { seed: 1, mint_x: MINT_X, mint_y: MINT_Y, bump: 254 };
    let account = AccountInfo {
        key: [8; 32],
        owner: ID,
        lamports: 1,
        data: vec![],
        is_signer: false,
        is_writable: true,
    };
    assert_eq!(seeds.confirm(&account, Some(([8; 32], 254))), Ok(()));
    assert_eq!(seeds.confirm(&account, Some(([8; 32], 255))), Err(ProgramError::InvalidSeeds));
    assert_eq!(seeds.confirm(&account, Some(([7; 32], 254))), Err(ProgramError::InvalidSeeds));
    assert_eq!(seeds.confirm(&account, None), Err(ProgramError::InvalidSeeds));
    assert_eq!(seeds.derive(), None);
}
