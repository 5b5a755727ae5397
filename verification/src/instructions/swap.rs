//! Swap: pay one token in and receive the other along the curve.

use vstd::prelude::*;
use crate::codec::{le_i64, le_u64, read_i64, read_u64};
use crate::curve::{ConstantProduct, LiquidityPair};
use crate::errors::{AmmError, ProgramError};
use crate::helpers::{AccountInfo, TokenAccountInterface};
use crate::instructions::{fails_with, result_is, token_amount_spec};
use crate::settlement::{Settlement, transfer_tokens, transfer_tokens_signed};
use crate::pubkey::Pubkey;
use crate::state::{AmmState, Config};

verus! {

/// The arguments of a swap.
#[derive(Clone, Copy, Debug, PartialEq, Eq, Structural)]
pub struct SwapInstructionData {
    /// Whether the caller pays token X in (and takes Y out).
    pub is_x: bool,
    /// The amount paid in.
    pub amount: u64,
    /// The least the caller will accept out.
    pub min: u64,
    /// The last moment at which the swap may run.
    pub expiration: i64,
}

impl SwapInstructionData {
    /// The size of the encoded arguments.
    pub const LEN: usize = 25;

    /// Neither amount may be zero.
    pub open spec fn wf(&self) -> bool {
        self.amount != 0 && self.min != 0
    }

    /// The side the caller pays into.
    pub open spec fn pair(&self) -> LiquidityPair {
        if self.is_x {
            LiquidityPair::X
        } else {
            LiquidityPair::Y
        }
    }

    /// The arguments that a payload encodes: one byte that is 1 for the X
    /// side, then three little-endian 64-bit fields, without padding. A
    /// payload of another length, or one with a zero amount, is refused.
    pub open spec fn parse(data: Seq<u8>) -> Result<SwapInstructionData, ProgramError> {
        let d = SwapInstructionData {
            is_x: data[0] == 1,
            amount: le_u64(data.subrange(1, 9)) as u64,
            min: le_u64(data.subrange(9, 17)) as u64,
            expiration: le_i64(data.subrange(17, 25)) as i64,
        };
        if data.len() != Self::LEN || !d.wf() {
            Err(ProgramError::InvalidInstructionData)
        } else {
            Ok(d)
        }
    }

    /// Decodes and validates the arguments.
    pub fn try_from(data: &[u8]) -> (r: Result<SwapInstructionData, ProgramError>)
        ensures
            r == Self::parse(data@),
            r matches Ok(d) ==> d.wf(),
    {
        if data.len() != Self::LEN {
            return Err(ProgramError::InvalidInstructionData);
        }
        let is_x = data[0] == 1;
        let amount = read_u64(data, 1);
        let min = read_u64(data, 9);
        let expiration = read_i64(data, 17);
        if amount == 0 || min == 0 {
            return Err(ProgramError::InvalidInstructionData);
        }
        Ok(SwapInstructionData { is_x, amount, min, expiration })
    }
}

/// The accounts of a swap, by role.
#[derive(Clone, Copy, Debug)]
pub struct SwapAccounts<'a> {
    pub user: &'a AccountInfo,
    pub user_x_ata: &'a AccountInfo,
    pub user_y_ata: &'a AccountInfo,
    pub vault_x: &'a AccountInfo,
    pub vault_y: &'a AccountInfo,
    pub config: &'a AccountInfo,
    pub token_program: &'a AccountInfo,
}

impl<'a> SwapAccounts<'a> {
    /// The number of accounts a swap takes: the seven named ones and one
    /// more that it does not read.
    pub const COUNT: usize = 8;

    /// Names the accounts by position. Any other number of accounts than
    /// `COUNT` is refused.
    pub fn try_from(accounts: &'a [AccountInfo]) -> (r: Result<SwapAccounts<'a>, ProgramError>)
        ensures
            accounts@.len() != Self::COUNT ==> fails_with(r, ProgramError::NotEnoughAccountKeys),
            accounts@.len() == Self::COUNT ==> (r matches Ok(a) && {
                &&& *a.user == accounts@[0]
                &&& *a.user_x_ata == accounts@[1]
                &&& *a.user_y_ata == accounts@[2]
                &&& *a.vault_x == accounts@[3]
                &&& *a.vault_y == accounts@[4]
                &&& *a.config == accounts@[5]
                &&& *a.token_program == accounts@[6]
            }),
    {
        if accounts.len() != Self::COUNT {
            return Err(ProgramError::NotEnoughAccountKeys);
        }
        Ok(
            SwapAccounts {
                user: &accounts[0],
                user_x_ata: &accounts[1],
                user_y_ata: &accounts[2],
                vault_x: &accounts[3],
                vault_y: &accounts[4],
                config: &accounts[5],
                token_program: &accounts[6],
            },
        )
    }
}

/// A swap: its accounts and its arguments.
#[derive(Clone, Copy, Debug)]
pub struct Swap<'a> {
    pub accounts: SwapAccounts<'a>,
    pub instruction_data: SwapInstructionData,
}

impl<'a> Swap<'a> {
    /// The tag that selects a swap.
    pub const DISCRIMINATOR: u8 = 3;

    /// Builds a swap from its payload and its accounts: the accounts are
    /// named first, then the payload is decoded.
    pub fn try_from(data: &[u8], accounts: &'a [AccountInfo]) -> (r: Result<Swap<'a>, ProgramError>)
        ensures
            accounts@.len() != SwapAccounts::COUNT ==> fails_with(
                r,
                ProgramError::NotEnoughAccountKeys,
            ),
            accounts@.len() == SwapAccounts::COUNT ==> match r {
                Ok(s) => {
                    &&& SwapInstructionData::parse(data@) == Ok::<SwapInstructionData, ProgramError>(
                        s.instruction_data,
                    )
                    &&& *s.accounts.user == accounts@[0]
                    &&& *s.accounts.user_x_ata == accounts@[1]
                    &&& *s.accounts.user_y_ata == accounts@[2]
                    &&& *s.accounts.vault_x == accounts@[3]
                    &&& *s.accounts.vault_y == accounts@[4]
                    &&& *s.accounts.config == accounts@[5]
                    &&& *s.accounts.token_program == accounts@[6]
                },
                Err(e) => SwapInstructionData::parse(data@) == Err::<SwapInstructionData, ProgramError>(
                    e,
                ),
            },
    {
        let accounts = SwapAccounts::try_from(accounts)?;
        let instruction_data = SwapInstructionData::try_from(data)?;
        Ok(Swap { accounts, instruction_data })
    }

    /// The legs of a swap that takes `deposit` in and pays `withdraw` out:
    /// the caller's input into the vault of the declared side, then the
    /// output from the opposite vault under the pool's custody.
    pub open spec fn legs(&self, config: Config, deposit: u64, withdraw: u64) -> Seq<Settlement> {
        let a = self.accounts;
        if self.instruction_data.is_x {
            seq![
                Settlement::Transfer {
                    from: a.user_x_ata.key,
                    to: a.vault_x.key,
                    authority: a.user.key,
                    amount: deposit,
                    custody: None,
                },
                Settlement::Transfer {
                    from: a.vault_y.key,
                    to: a.user_y_ata.key,
                    authority: a.config.key,
                    amount: withdraw,
                    custody: Some(config.config_seeds_spec()),
                },
            ]
        } else {
            seq![
                Settlement::Transfer {
                    from: a.user_y_ata.key,
                    to: a.vault_y.key,
                    authority: a.user.key,
                    amount: deposit,
                    custody: None,
                },
                Settlement::Transfer {
                    from: a.vault_x.key,
                    to: a.user_x_ata.key,
                    authority: a.config.key,
                    amount: withdraw,
                    custody: Some(config.config_seeds_spec()),
                },
            ]
        }
    }

    /// The reserves a swap trades on, or the first reason why a vault cannot
    /// be read.
    pub open spec fn reserves_spec(&self, fee: u16) -> Result<ConstantProduct, ProgramError> {
        match token_amount_spec(self.accounts.vault_x) {
            Err(e) => Err(e),
            Ok(x) => match token_amount_spec(self.accounts.vault_y) {
                Err(e) => Err(e),
                Ok(y) => Ok(ConstantProduct { x, y, l: 0, fee }),
            },
        }
    }

    /// Whether the two vaults and the caller's two accounts hold the tokens
    /// that the record names.
    pub open spec fn mints_match(&self, config: Config) -> bool {
        &&& TokenAccountInterface::check_mint_spec(self.accounts.vault_x, config.mint_x_spec()) is Ok
        &&& TokenAccountInterface::check_mint_spec(self.accounts.vault_y, config.mint_y_spec()) is Ok
        &&& TokenAccountInterface::check_mint_spec(self.accounts.user_x_ata, config.mint_x_spec())
            is Ok
        &&& TokenAccountInterface::check_mint_spec(self.accounts.user_y_ata, config.mint_y_spec())
            is Ok
    }

    /// The rule of a swap at time `now`, given what the host derived for the
    /// pool's custody address. In this order: a passed deadline or a zero
    /// amount is an argument error; the configuration record must load; the
    /// pool must be open, else the state error; the caller must have signed;
    /// the derivation must prove the custody address, else a seed error; the
    /// vaults must be readable; the vaults and the caller's accounts must hold
    /// the tokens that the record names, else a data error; the curve gives
    /// the two amounts or its slippage or overflow error; then the legs.
    pub open spec fn settle_spec(&self, now: i64, derived: Option<(Pubkey, u8)>) -> Result<
        Seq<Settlement>,
        ProgramError,
    > {
        let data = self.instruction_data;
        let accounts = self.accounts;
        let config = Config::decoded(accounts.config.data@);
        if now > data.expiration || !data.wf() {
            Err(ProgramError::InvalidInstructionData)
        } else if Config::load_error(accounts.config) is Some {
            Err(Config::load_error(accounts.config)->Some_0)
        } else if config.state_spec() != AmmState::Initialized {
            Err(ProgramError::Custom(AmmError::InvalidAmmState.code_spec()))
        } else if !accounts.user.is_signer {
            Err(ProgramError::MissingRequiredSignature)
        } else if !config.config_seeds_spec().proves(accounts.config.key, derived) {
            Err(ProgramError::InvalidSeeds)
        } else {
            match self.reserves_spec(config.fee_spec()) {
                Err(e) => Err(e),
                Ok(curve) => if !self.mints_match(config) {
                    Err(ProgramError::InvalidAccountData)
                } else {
                    match curve.swap_spec(data.pair(), data.amount, data.min) {
                        Err(e) => Err(e),
                        Ok(s) => Ok(self.legs(config, s.deposit, s.withdraw)),
                    }
                },
            }
        }
    }

    /// Decides a swap at time `now`, given what the host derived for the
    /// pool's custody address.
    pub fn settle(&self, now: i64, derived: Option<(Pubkey, u8)>) -> (r: Result<
        Vec<Settlement>,
        ProgramError,
    >)
        ensures
            result_is(r, self.settle_spec(now, derived)),
            now > self.instruction_data.expiration ==> fails_with(
                r,
                ProgramError::InvalidInstructionData,
            ),
    {
        let data = &self.instruction_data;
        let accounts = &self.accounts;
        if now > data.expiration || data.amount == 0 || data.min == 0 {
            return Err(ProgramError::InvalidInstructionData);
        }
        let config = match Config::load(accounts.config) {
            Ok(c) => c,
            Err(e) => {
                return Err(e);
            },
        };
        proof {
            Config::lemma_decodes_unique(config, config, accounts.config.data@);
        }
        if !config.state().allows_trading() {
            return Err(ProgramError::Custom(AmmError::InvalidAmmState.code()));
        }
        if !accounts.user.is_signer() {
            return Err(ProgramError::MissingRequiredSignature);
        }
        let seeds = config.config_seeds();
        if seeds.confirm(accounts.config, derived).is_err() {
            return Err(ProgramError::InvalidSeeds);
        }
        let vault_x = TokenAccountInterface::get(accounts.vault_x)?;
        let vault_y = TokenAccountInterface::get(accounts.vault_y)?;
        if TokenAccountInterface::check_mint(accounts.vault_x, config.mint_x()).is_err()
            || TokenAccountInterface::check_mint(accounts.vault_y, config.mint_y()).is_err()
            || TokenAccountInterface::check_mint(accounts.user_x_ata, config.mint_x()).is_err()
            || TokenAccountInterface::check_mint(accounts.user_y_ata, config.mint_y()).is_err() {
            return Err(ProgramError::InvalidAccountData);
        }
        let mut curve = ConstantProduct { x: vault_x.amount, y: vault_y.amount, l: 0, fee: config.fee() };
        let p = if data.is_x {
            LiquidityPair::X
        } else {
            LiquidityPair::Y
        };
        let traded = curve.swap(p, data.amount, data.min)?;
        let mut legs: Vec<Settlement> = Vec::new();
        if data.is_x {
            legs.push(transfer_tokens(accounts.user_x_ata, accounts.vault_x, accounts.user, traded.deposit));
            legs.push(transfer_tokens_signed(accounts.vault_y, accounts.user_y_ata, accounts.config, traded.withdraw, &seeds));
        } else {
            legs.push(transfer_tokens(accounts.user_y_ata, accounts.vault_y, accounts.user, traded.deposit));
            legs.push(transfer_tokens_signed(accounts.vault_x, accounts.user_x_ata, accounts.config, traded.withdraw, &seeds));
        }
        assert(legs@ =~= self.legs(config, traded.deposit, traded.withdraw));
        Ok(legs)
    }

    /// Decides a swap at time `now`, re-deriving the pool's custody address
    /// on the way. Whatever the host derives, the result is the one `settle`
    /// gives on it; a swap past its deadline fails with the argument error
    /// before anything else is looked at.
    pub fn process(&self, now: i64) -> (r: Result<Vec<Settlement>, ProgramError>)
        ensures
            exists|derived: Option<(Pubkey, u8)>|
                {
                    &&& Config::custody_derivation(self.accounts.config, derived)
                    &&& #[trigger] result_is(r, self.settle_spec(now, derived))
                },
            now > self.instruction_data.expiration ==> fails_with(
                r,
                ProgramError::InvalidInstructionData,
            ),
    {
        let derived = Config::derive_custody(self.accounts.config);
        let r = self.settle(now, derived);
        assert(Config::custody_derivation(self.accounts.config, derived) && result_is(
            r,
            self.settle_spec(now, derived),
        ));
        r
    }
}

/// A swap that is in time and well-formed, against a pool whose record
/// loads, fails with the state error whenever the pool is not open, whatever
/// else holds; and never fails with that error when the pool is open.
pub proof fn lemma_swap_state_gate(s: Swap, now: i64, derived: Option<(Pubkey, u8)>)
    requires
        now <= s.instruction_data.expiration,
        s.instruction_data.wf(),
        Config::load_error(s.accounts.config) is None,
    ensures
        Config::decoded(s.accounts.config.data@).state_spec() != AmmState::Initialized
            <==> s.settle_spec(now, derived) == Err::<Seq<Settlement>, ProgramError>(
            ProgramError::Custom(AmmError::InvalidAmmState.code_spec()),
        ),
{
}

/// The legs of a swap that succeeds move exactly what the curve gives on the
/// vaults' balances, and the product of the two balances after the legs is
/// no smaller than before.
pub proof fn lemma_swap_keeps_product(s: Swap, now: i64, derived: Option<(Pubkey, u8)>)
    requires
        s.settle_spec(now, derived) is Ok,
    ensures
        ({
            let config = Config::decoded(s.accounts.config.data@);
            let curve = s.reserves_spec(config.fee_spec())->Ok_0;
            let p = s.instruction_data.pair();
            let traded = curve.swap_spec(p, s.instruction_data.amount, s.instruction_data.min);
            let after = curve.after_swap(p, traded->Ok_0);
            &&& traded is Ok
            &&& s.settle_spec(now, derived) == Ok::<Seq<Settlement>, ProgramError>(
                s.legs(config, traded->Ok_0.deposit, traded->Ok_0.withdraw),
            )
            &&& traded->Ok_0.deposit == s.instruction_data.amount
            &&& traded->Ok_0.withdraw >= s.instruction_data.min
            &&& after.x * after.y >= curve.x * curve.y
        }),
{
    let config = Config::decoded(s.accounts.config.data@);
    let curve = s.reserves_spec(config.fee_spec())->Ok_0;
    let p = s.instruction_data.pair();
    assert(config.decodes(s.accounts.config.data@)) by {
        Config::lemma_loadable_decodes(s.accounts.config);
    }
    Config::lemma_loadable_wf(s.accounts.config);
    assert(curve.wf());
    crate::curve::lemma_swap_product_non_decreasing(
        curve,
        p,
        s.instruction_data.amount,
        s.instruction_data.min,
    );
}

} // verus!
