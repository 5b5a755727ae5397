//! Deposit: pay both tokens in at the pool's ratio and receive claim tokens.

use vstd::prelude::*;
use crate::codec::{le_i64, le_u64, read_i64, read_u64};
use crate::errors::{AmmError, ProgramError};
use crate::helpers::{AccountInfo, Mint, MintInterface, ProgramResult, SignerAccount, TokenAccount, TokenAccountInterface, TokenProgram, fail_if, token_layout_check_with_program};
use crate::instructions::{fails_with, pool_balances, pool_balances_spec, result_is, then};
use crate::pda::{check_derived, check_derived_spec, derives, find_program_address, seeds_view};
use crate::programs::{ID, SPL_TOKEN_2022_ID, TOKEN_PROGRAM_ID};
use crate::settlement::{Settlement, mint_tokens_signed, transfer_tokens};
use crate::pubkey::{Pubkey, pubkey_eq};
use crate::state::{AmmState, Config, MINT_LP_SEED_PREFIX};

verus! {

/// The arguments of a deposit.
#[derive(Clone, Copy, Debug, PartialEq, Eq, Structural)]
pub struct DepositInstructionData {
    /// Claim tokens to mint.
    pub amount: u64,
    /// The most of token X the caller will pay.
    pub max_x: u64,
    /// The most of token Y the caller will pay.
    pub max_y: u64,
    /// The last moment at which the deposit may run.
    pub expiration: i64,
}

impl DepositInstructionData {
    /// The size of the encoded arguments.
    pub const LEN: usize = 32;

    /// No amount may be zero.
    pub open spec fn wf(&self) -> bool {
        self.amount != 0 && self.max_x != 0 && self.max_y != 0
    }

    /// The arguments that a payload encodes: four little-endian 64-bit
    /// fields, in the order of the struct. A payload of another length, or
    /// one with a zero amount, is refused.
    pub open spec fn parse(data: Seq<u8>) -> Result<DepositInstructionData, ProgramError> {
        let d = DepositInstructionData {
            amount: le_u64(data.subrange(0, 8)) as u64,
            max_x: le_u64(data.subrange(8, 16)) as u64,
            max_y: le_u64(data.subrange(16, 24)) as u64,
            expiration: le_i64(data.subrange(24, 32)) as i64,
        };
        if data.len() != Self::LEN || !d.wf() {
            Err(ProgramError::InvalidInstructionData)
        } else {
            Ok(d)
        }
    }

    /// Decodes and validates the arguments.
    pub fn try_from(data: &[u8]) -> (r: Result<DepositInstructionData, ProgramError>)
        ensures
            r == Self::parse(data@),
            r matches Ok(d) ==> d.wf(),
    {
        if data.len() != Self::LEN {
            return Err(ProgramError::InvalidInstructionData);
        }
        let amount = read_u64(data, 0);
        let max_x = read_u64(data, 8);
        let max_y = read_u64(data, 16);
        let expiration = read_i64(data, 24);
        if amount == 0 || max_x == 0 || max_y == 0 {
            return Err(ProgramError::InvalidInstructionData);
        }
        Ok(DepositInstructionData { amount, max_x, max_y, expiration })
    }
}

/// The accounts of a deposit, by role.
#[derive(Clone, Copy, Debug)]
pub struct DepositAccounts<'a> {
    pub user: &'a AccountInfo,
    pub mint_lp: &'a AccountInfo,
    pub vault_x: &'a AccountInfo,
    pub vault_y: &'a AccountInfo,
    pub user_x_ata: &'a AccountInfo,
    pub user_y_ata: &'a AccountInfo,
    pub user_lp_ata: &'a AccountInfo,
    pub config: &'a AccountInfo,
    pub token_program: &'a AccountInfo,
}

/// Whether a token account's buffer names `owner` as holder and `mint` as
/// token: a wrong holder is an owner error, a wrong token a data error.
pub open spec fn holder_check_spec(account: &AccountInfo, owner: Pubkey, mint: Pubkey) -> ProgramResult {
    if account.data@.len() < TokenAccount::LEN {
        Err(ProgramError::InvalidAccountData)
    } else if !TokenAccount::stored_owner_is(account.data@, owner) {
        Err(ProgramError::InvalidAccountOwner)
    } else if !TokenAccount::stored_mint_is(account.data@, mint) {
        Err(ProgramError::InvalidAccountData)
    } else {
        Ok(())
    }
}

/// Holds a token account's buffer against the expected holder and token.
pub fn holder_check(account: &AccountInfo, owner: &Pubkey, mint: &Pubkey) -> (r: ProgramResult)
    ensures
        r == holder_check_spec(account, *owner, *mint),
{
    let token = TokenAccount::unpack(account.data.as_slice())?;
    proof {
        TokenAccount::lemma_key_bytes(token.owner, *owner);
        TokenAccount::lemma_key_bytes(token.mint, *mint);
    }
    if !pubkey_eq(&token.owner, owner) {
        return Err(ProgramError::InvalidAccountOwner);
    }
    if !pubkey_eq(&token.mint, mint) {
        return Err(ProgramError::InvalidAccountData);
    }
    Ok(())
}

impl<'a> DepositAccounts<'a> {
    /// The number of accounts a deposit takes: the nine named ones and one
    /// more that it does not read.
    pub const COUNT: usize = 10;

    /// The seed tuple of the claim-token mint of the pool at `config`.
    pub open spec fn mint_lp_tuple(config: Pubkey) -> Seq<Seq<u8>> {
        seq![MINT_LP_SEED_PREFIX@, config@]
    }

    /// The accounts by position: the caller, the claim mint, the two vaults,
    /// the caller's two token accounts and claim account, the configuration
    /// account and the token program.
    pub open spec fn named(accounts: &'a [AccountInfo]) -> DepositAccounts<'a>
        recommends
            accounts@.len() == Self::COUNT,
    {
        DepositAccounts {
            user: &accounts@[0],
            mint_lp: &accounts@[1],
            vault_x: &accounts@[2],
            vault_y: &accounts@[3],
            user_x_ata: &accounts@[4],
            user_y_ata: &accounts@[5],
            user_lp_ata: &accounts@[6],
            config: &accounts@[7],
            token_program: &accounts@[8],
        }
    }

    /// Names the accounts by position. Any other number of accounts than
    /// `COUNT` is refused.
    pub fn unpack(accounts: &'a [AccountInfo]) -> (r: Result<DepositAccounts<'a>, ProgramError>)
        ensures
            r == if accounts@.len() != Self::COUNT {
                Err::<DepositAccounts<'a>, ProgramError>(ProgramError::NotEnoughAccountKeys)
            } else {
                Ok(Self::named(accounts))
            },
    {
        if accounts.len() != Self::COUNT {
            return Err(ProgramError::NotEnoughAccountKeys);
        }
        Ok(
            DepositAccounts {
                user: &accounts[0],
                mint_lp: &accounts[1],
                vault_x: &accounts[2],
                vault_y: &accounts[3],
                user_x_ata: &accounts[4],
                user_y_ata: &accounts[5],
                user_lp_ata: &accounts[6],
                config: &accounts[7],
                token_program: &accounts[8],
            },
        )
    }

    /// What naming and checking the accounts yields, given what the host
    /// derived for the claim-token mint.
    pub open spec fn try_from_spec(accounts: &'a [AccountInfo], derived_mint_lp: Option<(Pubkey, u8)>) -> Result<
        DepositAccounts<'a>,
        ProgramError,
    > {
        if accounts@.len() != Self::COUNT {
            Err(ProgramError::NotEnoughAccountKeys)
        } else {
            match Self::named(accounts).validate_spec(derived_mint_lp) {
                Err(e) => Err(e),
                Ok(_) => Ok(Self::named(accounts)),
            }
        }
    }

    /// The verdict on the accounts, given what the host derived for the
    /// claim-token mint: the first failure, in this order, of: the caller
    /// signed; the token program is one; the configuration record loads; the
    /// claim mint is a mint of that token program and sits at the derived
    /// address; the five token accounts are token accounts of that program;
    /// each vault is held by the pool and each of the caller's accounts by the
    /// caller, each for the right token.
    pub open spec fn validate_spec(&self, derived_mint_lp: Option<(Pubkey, u8)>) -> ProgramResult {
        let program = self.token_program.key;
        let config = Config::decoded(self.config.data@);
        then(
            fail_if(!self.user.is_signer, ProgramError::MissingRequiredSignature),
            then(
                fail_if(
                    program != TOKEN_PROGRAM_ID && program != SPL_TOKEN_2022_ID,
                    ProgramError::IncorrectProgramId,
                ),
                then(
                    if Config::load_error(self.config) is Some {
                        Err(Config::load_error(self.config)->Some_0)
                    } else {
                        Ok(())
                    },
                    then(
                        token_layout_check_with_program(
                            self.mint_lp.owner,
                            self.mint_lp.data@.len(),
                            Mint::LEN as nat,
                            program,
                        ),
                        then(
                            if check_derived_spec(self.mint_lp.key, derived_mint_lp) is Err {
                                Err(ProgramError::InvalidSeeds)
                            } else {
                                Ok(())
                            },
                            then(
                                Self::token_account_check(self.vault_x, program),
                                then(
                                    Self::token_account_check(self.vault_y, program),
                                    then(
                                        Self::token_account_check(self.user_x_ata, program),
                                        then(
                                            Self::token_account_check(self.user_y_ata, program),
                                            then(
                                                Self::token_account_check(self.user_lp_ata, program),
                                                self.holders_spec(config),
                                            ),
                                        ),
                                    ),
                                ),
                            ),
                        ),
                    ),
                ),
            ),
        )
    }

    /// Whether `account` is a token account of the token program at `program`.
    pub open spec fn token_account_check(account: &AccountInfo, program: Pubkey) -> ProgramResult {
        token_layout_check_with_program(
            account.owner,
            account.data@.len(),
            TokenAccount::LEN as nat,
            program,
        )
    }

    /// The verdict on who holds the five token accounts, and for which token.
    pub open spec fn holders_spec(&self, config: Config) -> ProgramResult {
        then(
            holder_check_spec(self.vault_x, self.config.key, config.mint_x_spec()),
            then(
                holder_check_spec(self.vault_y, self.config.key, config.mint_y_spec()),
                then(
                    holder_check_spec(self.user_x_ata, self.user.key, config.mint_x_spec()),
                    then(
                        holder_check_spec(self.user_y_ata, self.user.key, config.mint_y_spec()),
                        holder_check_spec(self.user_lp_ata, self.user.key, self.mint_lp.key),
                    ),
                ),
            ),
        )
    }

    /// Runs every check on the accounts, given what the host derived for the
    /// claim-token mint.
    pub fn validate(&self, derived_mint_lp: Option<(Pubkey, u8)>) -> (r: ProgramResult)
        ensures
            r == self.validate_spec(derived_mint_lp),
    {
        SignerAccount::check(self.user)?;
        TokenProgram::check(self.token_program)?;
        let config = match Config::load(self.config) {
            Ok(c) => c,
            Err(e) => {
                return Err(e);
            },
        };
        proof {
            Config::lemma_decodes_unique(config, config, self.config.data@);
        }
        MintInterface::check_with_program(self.mint_lp, self.token_program)?;
        if check_derived(self.mint_lp, derived_mint_lp).is_err() {
            return Err(ProgramError::InvalidSeeds);
        }
        TokenAccountInterface::check_with_program(self.vault_x, self.token_program)?;
        TokenAccountInterface::check_with_program(self.vault_y, self.token_program)?;
        TokenAccountInterface::check_with_program(self.user_x_ata, self.token_program)?;
        TokenAccountInterface::check_with_program(self.user_y_ata, self.token_program)?;
        TokenAccountInterface::check_with_program(self.user_lp_ata, self.token_program)?;
        holder_check(self.vault_x, self.config.key(), config.mint_x())?;
        holder_check(self.vault_y, self.config.key(), config.mint_y())?;
        holder_check(self.user_x_ata, self.user.key(), config.mint_x())?;
        holder_check(self.user_y_ata, self.user.key(), config.mint_y())?;
        holder_check(self.user_lp_ata, self.user.key(), self.mint_lp.key())?;
        Ok(())
    }

    /// Names the accounts and runs every check on them, deriving the address
    /// of the claim-token mint on the way. Whatever the host derives, the
    /// result is the one that `unpack` and `validate` give on it.
    pub fn try_from(accounts: &'a [AccountInfo]) -> (r: Result<DepositAccounts<'a>, ProgramError>)
        ensures
            accounts@.len() != Self::COUNT ==> r == Err::<DepositAccounts<'a>, ProgramError>(
                ProgramError::NotEnoughAccountKeys,
            ),
            accounts@.len() == Self::COUNT ==> exists|derived: Option<(Pubkey, u8)>|
                {
                    &&& derives(derived, Self::mint_lp_tuple(accounts@[7].key), ID@)
                    &&& r == #[trigger] Self::try_from_spec(accounts, derived)
                },
    {
        let named = Self::unpack(accounts)?;
        let seeds: [&[u8]; 2] = [MINT_LP_SEED_PREFIX.as_slice(), named.config.key.as_slice()];
        let tuple: &[&[u8]] = seeds.as_slice();
        proof {
            assert(seeds_view(tuple) =~= Self::mint_lp_tuple(named.config.key));
        }
        let derived = find_program_address(tuple, &ID);
        let r = match named.validate(derived) {
            Ok(_) => Ok(named),
            Err(e) => Err(e),
        };
        proof {
            assert(derives(derived, Self::mint_lp_tuple(accounts@[7].key), ID@));
            assert(r == Self::try_from_spec(accounts, derived));
        }
        r
    }
}

/// A deposit: its accounts and its arguments.
#[derive(Clone, Copy, Debug)]
pub struct Deposit<'a> {
    pub accounts: DepositAccounts<'a>,
    pub instruction_data: DepositInstructionData,
}

impl<'a> Deposit<'a> {
    /// The tag that selects a deposit.
    pub const DISCRIMINATOR: u8 = 1;

    /// What building a deposit yields, given what the host derived for the
    /// claim-token mint: the accounts are checked first, then the payload.
    pub open spec fn try_from_spec(
        data: Seq<u8>,
        accounts: &'a [AccountInfo],
        derived_mint_lp: Option<(Pubkey, u8)>,
    ) -> Result<Deposit<'a>, ProgramError> {
        match DepositAccounts::try_from_spec(accounts, derived_mint_lp) {
            Err(e) => Err(e),
            Ok(named) => match DepositInstructionData::parse(data) {
                Err(e) => Err(e),
                Ok(instruction_data) => Ok(Deposit { accounts: named, instruction_data }),
            },
        }
    }

    /// Builds a deposit from its payload and its accounts, deriving the
    /// address of the claim-token mint on the way. Whatever the host
    /// derives, the result is the one that the rule gives on it.
    pub fn try_from(data: &[u8], accounts: &'a [AccountInfo]) -> (r: Result<Deposit<'a>, ProgramError>)
        ensures
            accounts@.len() != DepositAccounts::COUNT ==> r == Err::<Deposit<'a>, ProgramError>(
                ProgramError::NotEnoughAccountKeys,
            ),
            accounts@.len() == DepositAccounts::COUNT ==> exists|derived: Option<(Pubkey, u8)>|
                {
                    &&& derives(derived, DepositAccounts::mint_lp_tuple(accounts@[7].key), ID@)
                    &&& r == #[trigger] Self::try_from_spec(data@, accounts, derived)
                },
    {
        let named = DepositAccounts::try_from(accounts);
        let r = match named {
            Err(e) => Err(e),
            Ok(named) => match DepositInstructionData::try_from(data) {
                Err(e) => Err(e),
                Ok(instruction_data) => Ok(Deposit { accounts: named, instruction_data }),
            },
        };
        proof {
            if accounts@.len() == DepositAccounts::COUNT {
                let derived = choose|derived: Option<(Pubkey, u8)>|
                    {
                        &&& derives(derived, DepositAccounts::mint_lp_tuple(accounts@[7].key), ID@)
                        &&& named == #[trigger] DepositAccounts::try_from_spec(accounts, derived)
                    };
                assert(r == Self::try_from_spec(data@, accounts, derived));
            }
        }
        r
    }

    /// The legs of a deposit that pays in `x` and `y`: the caller's X into
    /// vault X, the caller's Y into vault Y, then the claims minted to the
    /// caller under the pool's custody.
    pub open spec fn legs(&self, config: Config, x: u64, y: u64) -> Seq<Settlement> {
        seq![
            Settlement::Transfer {
                from: self.accounts.user_x_ata.key,
                to: self.accounts.vault_x.key,
                authority: self.accounts.user.key,
                amount: x,
                custody: None,
            },
            Settlement::Transfer {
                from: self.accounts.user_y_ata.key,
                to: self.accounts.vault_y.key,
                authority: self.accounts.user.key,
                amount: y,
                custody: None,
            },
            Settlement::MintTo {
                mint: self.accounts.mint_lp.key,
                account: self.accounts.user_lp_ata.key,
                mint_authority: self.accounts.config.key,
                amount: self.instruction_data.amount,
                custody: Some(config.config_seeds_spec()),
            },
        ]
    }

    /// The rule of a deposit at time `now`, given what the host derived for
    /// the pool's custody address. In this order: a passed deadline or a zero
    /// amount is an argument error; the configuration record must load; the
    /// pool must be open, else the state error; the derivation must prove the
    /// custody address, else a seed error; the balances must be readable; the
    /// curve gives the amounts or its slippage or overflow error; then the
    /// legs.
    pub open spec fn settle_spec(&self, now: i64, derived: Option<(Pubkey, u8)>) -> Result<
        Seq<Settlement>,
        ProgramError,
    > {
        let data = self.instruction_data;
        let config = Config::decoded(self.accounts.config.data@);
        if now > data.expiration || !data.wf() {
            Err(ProgramError::InvalidInstructionData)
        } else if Config::load_error(self.accounts.config) is Some {
            Err(Config::load_error(self.accounts.config)->Some_0)
        } else if config.state_spec() != AmmState::Initialized {
            Err(ProgramError::Custom(AmmError::InvalidAmmState.code_spec()))
        } else if !config.config_seeds_spec().proves(self.accounts.config.key, derived) {
            Err(ProgramError::InvalidSeeds)
        } else {
            match pool_balances_spec(
                self.accounts.mint_lp,
                self.accounts.vault_x,
                self.accounts.vault_y,
                config.fee_spec(),
            ) {
                Err(e) => Err(e),
                Ok(curve) => match curve.deposit_liquidity_spec(data.amount, data.max_x, data.max_y) {
                    Err(e) => Err(e),
                    Ok(d) => Ok(self.legs(config, d.x, d.y)),
                },
            }
        }
    }

    /// Decides a deposit at time `now`, given what the host derived for the
    /// pool's custody address.
    pub fn settle(&self, now: i64, derived: Option<(Pubkey, u8)>) -> (r: Result<
        Vec<Settlement>,
        ProgramError,
    >)
        ensures
            result_is(r, self.settle_spec(now, derived)),
            now > self.instruction_data.expiration ==> fails_with(
                r,
                ProgramError::InvalidInstructionData,
            ),
    {
        let data = &self.instruction_data;
        let accounts = &self.accounts;
        if now > data.expiration || data.amount == 0 || data.max_x == 0 || data.max_y == 0 {
            return Err(ProgramError::InvalidInstructionData);
        }
        let config = match Config::load(accounts.config) {
            Ok(c) => c,
            Err(e) => {
                return Err(e);
            },
        };
        proof {
            Config::lemma_decodes_unique(config, config, accounts.config.data@);
        }
        if !config.state().allows_trading() {
            return Err(ProgramError::Custom(AmmError::InvalidAmmState.code()));
        }
        let seeds = config.config_seeds();
        if seeds.confirm(accounts.config, derived).is_err() {
            return Err(ProgramError::InvalidSeeds);
        }
        let mut curve = pool_balances(accounts.mint_lp, accounts.vault_x, accounts.vault_y, config.fee())?;
        let paid = curve.deposit_liquidity(data.amount, data.max_x, data.max_y)?;
        let mut legs: Vec<Settlement> = Vec::new();
        legs.push(transfer_tokens(accounts.user_x_ata, accounts.vault_x, accounts.user, paid.x));
        legs.push(transfer_tokens(accounts.user_y_ata, accounts.vault_y, accounts.user, paid.y));
        legs.push(mint_tokens_signed(accounts.mint_lp, accounts.user_lp_ata, accounts.config, data.amount, &seeds));
        assert(legs@ =~= self.legs(config, paid.x, paid.y));
        Ok(legs)
    }

    /// Decides a deposit at time `now`, re-deriving the pool's custody
    /// address on the way. Whatever the host derives, the result is the one
    /// `settle` gives on it; a deposit past its deadline fails with the
    /// argument error before anything else is looked at.
    pub fn process(&self, now: i64) -> (r: Result<Vec<Settlement>, ProgramError>)
        ensures
            exists|derived: Option<(Pubkey, u8)>|
                {
                    &&& Config::custody_derivation(self.accounts.config, derived)
                    &&& #[trigger] result_is(r, self.settle_spec(now, derived))
                },
            now > self.instruction_data.expiration ==> fails_with(
                r,
                ProgramError::InvalidInstructionData,
            ),
    {
        let derived = Config::derive_custody(self.accounts.config);
        let r = self.settle(now, derived);
        assert(Config::custody_derivation(self.accounts.config, derived) && result_is(
            r,
            self.settle_spec(now, derived),
        ));
        r
    }
}

/// A deposit that is in time and well-formed, against a pool whose record
/// loads, fails with the state error whenever the pool is not open, whatever
/// else holds; and never fails with that error when the pool is open.
pub proof fn lemma_deposit_state_gate(d: Deposit, now: i64, derived: Option<(Pubkey, u8)>)
    requires
        now <= d.instruction_data.expiration,
        d.instruction_data.wf(),
        Config::load_error(d.accounts.config) is None,
    ensures
        Config::decoded(d.accounts.config.data@).state_spec() != AmmState::Initialized
            <==> d.settle_spec(now, derived) == Err::<Seq<Settlement>, ProgramError>(
            ProgramError::Custom(AmmError::InvalidAmmState.code_spec()),
        ),
{
}

} // verus!
