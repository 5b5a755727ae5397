use blueshift_native_amm::errors::ProgramError;
use blueshift_native_amm::helpers::{
    transfer_lamports_unchecked, AccountInfo, CreateAccountPlan, CreateMintPlan, Lifecycle, Mint,
    MintInterface, ProgramAccount, SignerAccount, SystemAccount, TokenAccount,
    TokenAccountInterface, TokenProgram,
};
use blueshift_native_amm::pda::{
    check_derived, check_derived_with_bump, get_associated_token_address,
    get_associated_token_address_and_bump, verify_pda, verify_pda_with_bump,
    AssociatedTokenAccount,
};
use blueshift_native_amm::programs::{
    ID, SPL_TOKEN_2022_ID, SYSTEM_PROGRAM_ID, TOKEN_PROGRAM_ID,
};
use blueshift_native_amm::pubkey::Pubkey;
use blueshift_native_amm::settlement::{
    burn_tokens, burn_tokens_signed, close_token_account, close_token_account_signed,
    mint_tokens, mint_tokens_signed, transfer_sol, transfer_sol_signed, transfer_tokens,
    transfer_tokens_checked, transfer_tokens_checked_signed, transfer_tokens_signed, Settlement,
};
use blueshift_native_amm::state::ConfigSeeds;

const WALLET: Pubkey = [1; 32];
const MINT: Pubkey = [2; 32];

fn account(key: Pubkey, owner: Pubkey, lamports: u64, data: Vec<u8>) -> AccountInfo {
    AccountInfo { key, owner, lamports, data, is_signer: false, is_writable: false }
}

fn token_data(mint: Pubkey, owner: Pubkey, amount: u64, len: usize) -> Vec<u8> {
    let mut data = vec![0u8; len];
    data[0..32].copy_from_slice(&mint);
    data[32..64].copy_from_slice(&owner);
    data[64..72].copy_from_slice(&amount.to_le_bytes());
    data
}

#[test]
fn signer_checks() {
    let mut a = account(WALLET, SYSTEM_PROGRAM_ID, 1, vec![]);
    assert_eq!(SignerAccount::check(&a), Err(ProgramError::MissingRequiredSignature));
    assert_eq!(SignerAccount::check_writable(&a), Err(ProgramError::MissingRequiredSignature));
    a.is_signer = true;
    assert_eq!(SignerAccount::check(&a), Ok(()));
    assert_eq!(SignerAccount::check_writable(&a), Err(ProgramError::InvalidAccountData));
    a.is_writable = true;
    assert_eq!(SignerAccount::check_writable(&a), Ok(()));
}

#[test]
fn system_account_checks() {
    let a = account(WALLET, SYSTEM_PROGRAM_ID, 1, vec![]);
    assert_eq!(SystemAccount::check(&a), Ok(()));
    assert_eq!(SystemAccount::check_program(&a), Err(ProgramError::IncorrectProgramId));
    let p = account(SYSTEM_PROGRAM_ID, ID, 1, vec![]);
    assert_eq!(SystemAccount::check(&p), Err(ProgramError::InvalidAccountOwner));
    assert_eq!(SystemAccount::check_program(&p), Ok(()));
}

#[test]
fn program_account_checks() {
    let mut a = account(WALLET, ID, 0, vec![]);
    assert_eq!(ProgramAccount::check(&a), Ok(()));
    assert_eq!(ProgramAccount::check_writable(&a), Err(ProgramError::InvalidAccountData));
    a.is_writable = true;
    assert_eq!(ProgramAccount::check_writable(&a), Ok(()));
    assert_eq!(ProgramAccount::check_owner(&a, &ID), Ok(()));
    assert_eq!(ProgramAccount::check_owner(&a, &MINT), Err(ProgramError::InvalidAccountOwner));
    assert_eq!(ProgramAccount::check_data_len(&a, 0), Ok(()));
    assert_eq!(ProgramAccount::check_data_len(&a, 1), Err(ProgramError::InvalidAccountData));
    assert_eq!(ProgramAccount::check_uninitialized(&a), Ok(()));
    assert_eq!(ProgramAccount::check_initialized(&a), Err(ProgramError::UninitializedAccount));
    a.lamports = 5;
    assert_eq!(ProgramAccount::check_uninitialized(&a), Err(ProgramError::AccountAlreadyInitialized));
    assert_eq!(ProgramAccount::check_initialized(&a), Ok(()));
    a.lamports = 0;
    a.data = vec![0];
    assert_eq!(ProgramAccount::check_uninitialized(&a), Err(ProgramError::AccountAlreadyInitialized));
    a.owner = MINT;
    assert_eq!(ProgramAccount::check(&a), Err(ProgramError::InvalidAccountOwner));
    assert_eq!(ProgramAccount::check_writable(&a), Err(ProgramError::InvalidAccountOwner));
}

#[test]
fn closing_moves_balance_and_marks_the_buffer() {
    let mut a = account(WALLET, ID, 70, vec![9, 9, 9, 9]);
    let mut to = account(MINT, SYSTEM_PROGRAM_ID, 30, vec![5]);
    assert_eq!(ProgramAccount::lifecycle(&a), Lifecycle::Open);
    assert_eq!(ProgramAccount::check_not_closed(&a), Ok(()));
    assert_eq!(ProgramAccount::close(&mut a, &mut to), Ok(()));
    assert_eq!(a, account(WALLET, ID, 0, vec![255, 0, 0, 0]));
    assert_eq!(to, account(MINT, SYSTEM_PROGRAM_ID, 100, vec![5]));
    assert_eq!(ProgramAccount::lifecycle(&a), Lifecycle::Closed);
    assert_eq!(ProgramAccount::check_not_closed(&a), Err(ProgramError::InvalidAccountData));
    let mut empty = account(WALLET, ID, 1, vec![]);
    assert_eq!(ProgramAccount::close(&mut empty, &mut to), Ok(()));
    assert_eq!(empty.data, Vec::<u8>::new());
    assert_eq!(ProgramAccount::lifecycle(&empty), Lifecycle::Open);
    let mut rich = account(MINT, SYSTEM_PROGRAM_ID, u64::MAX, vec![]);
    let mut b = account(WALLET, ID, 1, vec![7]);
    assert_eq!(ProgramAccount::close(&mut b, &mut rich), Err(ProgramError::ArithmeticOverflow));
    assert_eq!(b, account(WALLET, ID, 1, vec![7]));
    assert_eq!(rich.lamports, u64::MAX);
}

#[test]
fn realloc_tops_up_and_resizes() {
    let mut a = account(WALLET, ID, 10, vec![1, 2, 3]);
    let mut payer = account(MINT, SYSTEM_PROGRAM_ID, 100, vec![]);
    assert_eq!(ProgramAccount::realloc(&mut a, &mut payer, 5, 40), Ok(()));
    assert_eq!(a.data, vec![1, 2, 3, 0, 0]);
    assert_eq!((a.lamports, payer.lamports), (40, 70));
    assert_eq!(ProgramAccount::realloc(&mut a, &mut payer, 2, 20), Ok(()));
    assert_eq!(a.data, vec![1, 2]);
    assert_eq!((a.lamports, payer.lamports), (40, 70));
    assert_eq!(
        ProgramAccount::realloc(&mut a, &mut payer, 9, 111),
        Err(ProgramError::InsufficientFunds)
    );
    assert_eq!(a.data, vec![1, 2]);
    assert_eq!((a.lamports, payer.lamports), (40, 70));
}

#[test]
fn lamports_move_or_nothing_changes() {
    let mut from = account(WALLET, ID, 10, vec![]);
    let mut to = account(MINT, ID, u64::MAX - 5, vec![]);
    assert_eq!(transfer_lamports_unchecked(&mut from, &mut to, 5), Ok(()));
    assert_eq!((from.lamports, to.lamports), (5, u64::MAX));
    assert_eq!(
        transfer_lamports_unchecked(&mut from, &mut to, 6),
        Err(ProgramError::InsufficientFunds)
    );
    assert_eq!(
        transfer_lamports_unchecked(&mut from, &mut to, 1),
        Err(ProgramError::ArithmeticOverflow)
    );
    assert_eq!((from.lamports, to.lamports), (5, u64::MAX));
}

#[test]
fn mint_interface_checks_owner_and_length() {
    let mut data = vec![0u8; 82];
    data[36..44].copy_from_slice(&1_000_000u64.to_le_bytes());
    data[44] = 6;
    let mut m = account(MINT, TOKEN_PROGRAM_ID, 1, data.clone());
    assert_eq!(MintInterface::check(&m), Ok(()));
    assert_eq!(
        MintInterface::get(&m),
        Ok(Mint { supply: 1_000_000, decimals: 6, is_initialized: false })
    );
    assert_eq!(MintInterface::check_initialized(&m), Err(ProgramError::UninitializedAccount));
    m.data[45] = 1;
    assert_eq!(MintInterface::check_initialized(&m), Ok(()));
    assert!(!MintInterface::is_token_2022(&m));
    m.data.push(0);
    assert_eq!(MintInterface::check(&m), Err(ProgramError::InvalidAccountData));
    m.owner = SPL_TOKEN_2022_ID;
    assert_eq!(MintInterface::check(&m), Ok(()));
    assert!(MintInterface::is_token_2022(&m));
    m.data.truncate(81);
    assert_eq!(MintInterface::check(&m), Err(ProgramError::InvalidAccountData));
    m.owner = ID;
    assert_eq!(MintInterface::check(&m), Err(ProgramError::InvalidAccountOwner));
    assert_eq!(Mint::unpack(&data[..81]), Err(ProgramError::InvalidAccountData));
}

#[test]
fn mint_interface_checks_against_supplied_program() {
    let m = account(MINT, TOKEN_PROGRAM_ID, 1, vec![0u8; 82]);
    let token = account(TOKEN_PROGRAM_ID, ID, 1, vec![]);
    let token22 = account(SPL_TOKEN_2022_ID, ID, 1, vec![]);
    let other = account(ID, ID, 1, vec![]);
    assert_eq!(MintInterface::check_with_program(&m, &token), Ok(()));
    assert_eq!(
        MintInterface::check_with_program(&m, &token22),
        Err(ProgramError::InvalidAccountOwner)
    );
    let odd = account(MINT, ID, 1, vec![0u8; 82]);
    assert_eq!(
        MintInterface::check_with_program(&odd, &other),
        Err(ProgramError::IncorrectProgramId)
    );
    let long = account(MINT, SPL_TOKEN_2022_ID, 1, vec![0u8; 100]);
    assert_eq!(MintInterface::check_with_program(&long, &token22), Ok(()));
    let short = account(MINT, SPL_TOKEN_2022_ID, 1, vec![0u8; 81]);
    assert_eq!(
        MintInterface::check_with_program(&short, &token22),
        Err(ProgramError::InvalidAccountData)
    );
}

#[test]
fn token_account_interface_reads_holder_mint_and_balance() {
    let t = account([3; 32], TOKEN_PROGRAM_ID, 1, token_data(MINT, WALLET, 77, 165));
    assert_eq!(TokenAccountInterface::check(&t), Ok(()));
    assert_eq!(
        TokenAccountInterface::get(&t),
        Ok(TokenAccount { mint: MINT, owner: WALLET, amount: 77 })
    );
    assert_eq!(TokenAccountInterface::check_owner(&t, &WALLET), Ok(()));
    assert_eq!(TokenAccountInterface::check_owner(&t, &MINT), Err(ProgramError::InvalidAccountOwner));
    assert_eq!(TokenAccountInterface::check_mint(&t, &MINT), Ok(()));
    assert_eq!(TokenAccountInterface::check_mint(&t, &WALLET), Err(ProgramError::InvalidAccountData));
    assert_eq!(TokenAccountInterface::check_owner_and_mint(&t, &WALLET, &MINT), Ok(()));
    assert_eq!(
        TokenAccountInterface::check_owner_and_mint(&t, &MINT, &WALLET),
        Err(ProgramError::InvalidAccountOwner)
    );
    assert_eq!(
        TokenAccountInterface::check_owner_and_mint(&t, &WALLET, &WALLET),
        Err(ProgramError::InvalidAccountData)
    );
    assert_eq!(TokenAccountInterface::check_balance(&t, 77), Ok(()));
    assert_eq!(TokenAccountInterface::check_balance(&t, 78), Err(ProgramError::InsufficientFunds));
    assert!(!TokenAccountInterface::is_token_2022(&t));
    let long = account([3; 32], TOKEN_PROGRAM_ID, 1, token_data(MINT, WALLET, 77, 166));
    assert_eq!(TokenAccountInterface::check(&long), Err(ProgramError::InvalidAccountData));
    assert_eq!(TokenAccountInterface::get(&long), Err(ProgramError::InvalidAccountData));
    let ext = account([3; 32], SPL_TOKEN_2022_ID, 1, token_data(MINT, WALLET, 77, 166));
    assert_eq!(TokenAccountInterface::check(&ext), Ok(()));
    assert!(TokenAccountInterface::is_token_2022(&ext));
    let alien = account([3; 32], ID, 1, token_data(MINT, WALLET, 77, 165));
    assert_eq!(TokenAccountInterface::check_owner(&alien, &WALLET), Err(ProgramError::InvalidAccountOwner));
    let token = account(TOKEN_PROGRAM_ID, ID, 1, vec![]);
    assert_eq!(TokenAccountInterface::check_with_program(&t, &token), Ok(()));
    assert_eq!(
        TokenAccountInterface::check_with_program(&ext, &token),
        Err(ProgramError::InvalidAccountOwner)
    );
    assert_eq!(
        TokenAccount::unpack(&[0u8; 164]),
        Err(ProgramError::InvalidAccountData)
    );
}

#[test]
fn token_program_checks() {
    let token = account(TOKEN_PROGRAM_ID, ID, 1, vec![]);
    let token22 = account(SPL_TOKEN_2022_ID, ID, 1, vec![]);
    let other = account(ID, ID, 1, vec![]);
    assert_eq!(TokenProgram::check(&token), Ok(()));
    assert_eq!(TokenProgram::check(&token22), Ok(()));
    assert_eq!(TokenProgram::check(&other), Err(ProgramError::IncorrectProgramId));
    assert_eq!(TokenProgram::check_standard(&token), Ok(()));
    assert_eq!(TokenProgram::check_standard(&token22), Err(ProgramError::IncorrectProgramId));
    assert_eq!(TokenProgram::check_2022(&token22), Ok(()));
    assert_eq!(TokenProgram::check_2022(&token), Err(ProgramError::IncorrectProgramId));
    assert!(TokenProgram::is_token_2022(&token22));
    assert!(!TokenProgram::is_token_2022(&token));
}

#[test]
fn derivation_results_are_checked_exactly() {
    let a = account(WALLET, ID, 1, vec![]);
    assert_eq!(check_derived(&a, Some((WALLET, 250))), Ok(250));
    assert_eq!(check_derived(&a, Some((MINT, 250))), Err(ProgramError::InvalidSeeds));
    assert_eq!(check_derived(&a, None), Err(ProgramError::InvalidSeeds));
    assert_eq!(check_derived_with_bump(&a, 250, Some((WALLET, 250))), Ok(()));
    assert_eq!(
        check_derived_with_bump(&a, 249, Some((WALLET, 250))),
        Err(ProgramError::InvalidSeeds)
    );
    assert_eq!(check_derived_with_bump(&a, 250, None), Err(ProgramError::InvalidSeeds));
}

#[test]
fn derivation_is_declined_off_ledger() {
    let a = account(WALLET, ID, 1, vec![]);
    let seeds: [&[u8]; 2] = [b"escrow", &WALLET];
    assert_eq!(verify_pda(&a, &seeds, &ID), Err(ProgramError::InvalidSeeds));
    assert_eq!(verify_pda_with_bump(&a, &seeds, 255, &ID), Err(ProgramError::InvalidSeeds));
    assert_eq!(get_associated_token_address(&WALLET, &MINT, &TOKEN_PROGRAM_ID), None);
    assert_eq!(get_associated_token_address_and_bump(&WALLET, &MINT, &TOKEN_PROGRAM_ID), None);
}

#[test]
fn associated_token_account_checks() {
    let owner = account(WALLET, SYSTEM_PROGRAM_ID, 1, vec![]);
    let mint = account(MINT, TOKEN_PROGRAM_ID, 1, vec![0u8; 82]);
    let token = account(TOKEN_PROGRAM_ID, ID, 1, vec![]);
    let ata = account([3; 32], TOKEN_PROGRAM_ID, 0, token_data(MINT, WALLET, 0, 165));
    assert_eq!(AssociatedTokenAccount::check_derived(&ata, &token, Some([3; 32])), Ok(()));
    assert_eq!(
        AssociatedTokenAccount::check_derived(&ata, &token, Some([4; 32])),
        Err(ProgramError::InvalidSeeds)
    );
    assert_eq!(
        AssociatedTokenAccount::check_derived(&ata, &token, None),
        Err(ProgramError::InvalidSeeds)
    );
    assert_eq!(
        AssociatedTokenAccount::check_derived(&ata, &owner, Some([3; 32])),
        Err(ProgramError::InvalidAccountOwner)
    );
    assert_eq!(
        AssociatedTokenAccount::check(&ata, &owner, &mint, &token),
        Err(ProgramError::InvalidSeeds)
    );
    assert_eq!(
        AssociatedTokenAccount::check(&ata, &owner, &mint, &owner),
        Err(ProgramError::InvalidAccountOwner)
    );
    assert_eq!(
        AssociatedTokenAccount::check_strict(&ata, &owner, &mint, &owner),
        Err(ProgramError::InvalidAccountOwner)
    );
    assert!(AssociatedTokenAccount::needs_init(&ata));
    assert!(!AssociatedTokenAccount::needs_init(&owner));
}

#[test]
fn associated_token_account_creation_is_planned_at_the_derived_address() {
    let payer = account([9; 32], SYSTEM_PROGRAM_ID, 5, vec![]);
    let owner = account(WALLET, SYSTEM_PROGRAM_ID, 1, vec![]);
    let mint = account(MINT, TOKEN_PROGRAM_ID, 1, vec![0u8; 82]);
    let system = account(SYSTEM_PROGRAM_ID, ID, 1, vec![]);
    let token = account(TOKEN_PROGRAM_ID, ID, 1, vec![]);
    let fresh = account([3; 32], SYSTEM_PROGRAM_ID, 0, vec![]);
    assert_eq!(
        AssociatedTokenAccount::init_derived(&fresh, &mint, &payer, &owner, &system, &token, true, Some([3; 32])),
        Ok(Settlement::CreateAssociatedTokenAccount {
            payer: [9; 32],
            account: [3; 32],
            owner: WALLET,
            mint: MINT,
            system_program: SYSTEM_PROGRAM_ID,
            token_program: TOKEN_PROGRAM_ID,
            idempotent: true,
        })
    );
    assert_eq!(
        AssociatedTokenAccount::init_derived(&fresh, &mint, &payer, &owner, &system, &token, false, Some([4; 32])),
        Err(ProgramError::InvalidSeeds)
    );
    assert_eq!(
        AssociatedTokenAccount::init(&fresh, &mint, &payer, &owner, &system, &token),
        Err(ProgramError::InvalidSeeds)
    );
    assert_eq!(
        AssociatedTokenAccount::init_idempotent(&fresh, &mint, &payer, &owner, &system, &token),
        Err(ProgramError::InvalidSeeds)
    );
    assert_eq!(
        AssociatedTokenAccount::init_if_needed(&fresh, &mint, &payer, &owner, &system, &token),
        Err(ProgramError::InvalidSeeds)
    );
    assert_eq!(
        AssociatedTokenAccount::init_if_needed(&payer, &mint, &payer, &owner, &system, &token),
        Ok(None)
    );
}

#[test]
fn settlement_constructors_name_accounts_and_authority() {
    let a = account([1; 32], ID, 1, vec![]);
    let b = account([2; 32], ID, 1, vec![]);
    let c = account([3; 32], ID, 1, vec![]);
    let m = account([4; 32], ID, 1, vec![]);
    let seeds = ConfigSeeds { seed: 5, mint_x: [6; 32], mint_y: [7; 32], bump: 8 };
    assert_eq!(
        transfer_sol(&a, &b, 9),
        Settlement::SystemTransfer { from: [1; 32], to: [2; 32], lamports: 9, custody: None }
    );
    assert_eq!(
        transfer_sol_signed(&a, &b, 9, &seeds),
        Settlement::SystemTransfer { from: [1; 32], to: [2; 32], lamports: 9, custody: Some(seeds) }
    );
    assert_eq!(
        transfer_tokens(&a, &b, &c, 9),
        Settlement::Transfer { from: [1; 32], to: [2; 32], authority: [3; 32], amount: 9, custody: None }
    );
    assert_eq!(
        transfer_tokens_signed(&a, &b, &c, 9, &seeds),
        Settlement::Transfer { from: [1; 32], to: [2; 32], authority: [3; 32], amount: 9, custody: Some(seeds) }
    );
    assert_eq!(
        transfer_tokens_checked(&a, &b, &m, &c, 9, 6),
        Settlement::TransferChecked {
            from: [1; 32],
            to: [2; 32],
            mint: [4; 32],
            authority: [3; 32],
            amount: 9,
            decimals: 6,
            custody: None,
        }
    );
    assert_eq!(
        transfer_tokens_checked_signed(&a, &b, &m, &c, 9, 6, &seeds),
        Settlement::TransferChecked {
            from: [1; 32],
            to: [2; 32],
            mint: [4; 32],
            authority: [3; 32],
            amount: 9,
            decimals: 6,
            custody: Some(seeds),
        }
    );
    assert_eq!(
        mint_tokens(&m, &b, &c, 9),
        Settlement::MintTo { mint: [4; 32], account: [2; 32], mint_authority: [3; 32], amount: 9, custody: None }
    );
    assert_eq!(
        mint_tokens_signed(&m, &b, &c, 9, &seeds),
        Settlement::MintTo {
            mint: [4; 32],
            account: [2; 32],
            mint_authority: [3; 32],
            amount: 9,
            custody: Some(seeds),
        }
    );
    assert_eq!(
        burn_tokens(&a, &m, &c, 9),
        Settlement::Burn { account: [1; 32], mint: [4; 32], authority: [3; 32], amount: 9, custody: None }
    );
    assert_eq!(
        burn_tokens_signed(&a, &m, &c, 9, &seeds),
        Settlement::Burn { account: [1; 32], mint: [4; 32], authority: [3; 32], amount: 9, custody: Some(seeds) }
    );
    assert_eq!(
        close_token_account(&a, &b, &c),
        Settlement::CloseAccount { account: [1; 32], destination: [2; 32], authority: [3; 32], custody: None }
    );
    assert_eq!(
        close_token_account_signed(&a, &b, &c, &seeds),
        Settlement::CloseAccount {
            account: [1; 32],
            destination: [2; 32],
            authority: [3; 32],
            custody: Some(seeds),
        }
    );
}

#[test]
fn account_creation_is_planned_for_the_right_program() {
    let payer = account([9; 32], SYSTEM_PROGRAM_ID, 5, vec![]);
    let fresh = account([3; 32], SYSTEM_PROGRAM_ID, 0, vec![]);
    assert_eq!(
        ProgramAccount::init(&payer, &fresh, 109),
        CreateAccountPlan { payer: [9; 32], account: [3; 32], space: 109, owner: ID }
    );
    assert_eq!(
        ProgramAccount::init_with_owner(&payer, &fresh, 7, &MINT),
        CreateAccountPlan { payer: [9; 32], account: [3; 32], space: 7, owner: MINT }
    );
    assert_eq!(
        MintInterface::init(&payer, &fresh, 6, &WALLET, &TOKEN_PROGRAM_ID),
        CreateMintPlan {
            account: CreateAccountPlan {
                payer: [9; 32],
                account: [3; 32],
                space: 82,
                owner: TOKEN_PROGRAM_ID,
            },
            decimals: 6,
            mint_authority: WALLET,
        }
    );
}
