//! Withdraw: burn claim tokens and receive both tokens at the pool's ratio.

use vstd::prelude::*;
use crate::codec::{le_i64, le_u64, read_i64, read_u64};
use crate::errors::{AmmError, ProgramError};
use crate::helpers::{AccountInfo, TokenAccountInterface};
use crate::instructions::{fails_with, pool_balances, pool_balances_spec, result_is};
use crate::settlement::{Settlement, burn_tokens, transfer_tokens_signed};
use crate::pubkey::Pubkey;
use crate::state::{AmmState, Config};

verus! {

/// The arguments of a withdrawal.
#[derive(Clone, Copy, Debug, PartialEq, Eq, Structural)]
pub struct WithdrawInstructionData {
    /// Claim tokens to burn.
    pub amount: u64,
    /// The least of token X the caller will accept.
    pub min_x: u64,
    /// The least of token Y the caller will accept.
    pub min_y: u64,
    /// The last moment at which the withdrawal may run.
    pub expiration: i64,
}

impl WithdrawInstructionData {
    /// The size of the encoded arguments.
    pub const LEN: usize = 32;

    /// The amount to burn may not be zero.
    pub open spec fn wf(&self) -> bool {
        self.amount != 0
    }

    /// The arguments that a payload encodes: four little-endian 64-bit
    /// fields, in the order of the struct. A payload of another length, or
    /// one that burns nothing, is refused.
    pub open spec fn parse(data: Seq<u8>) -> Result<WithdrawInstructionData, ProgramError> {
        let d = WithdrawInstructionData {
            amount: le_u64(data.subrange(0, 8)) as u64,
            min_x: le_u64(data.subrange(8, 16)) as u64,
            min_y: le_u64(data.subrange(16, 24)) as u64,
            expiration: le_i64(data.subrange(24, 32)) as i64,
        };
        if data.len() != Self::LEN || !d.wf() {
            Err(ProgramError::InvalidInstructionData)
        } else {
            Ok(d)
        }
    }

    /// Decodes and validates the arguments.
    pub fn try_from(data: &[u8]) -> (r: Result<WithdrawInstructionData, ProgramError>)
        ensures
            r == Self::parse(data@),
            r matches Ok(d) ==> d.wf(),
    {
        if data.len() != Self::LEN {
            return Err(ProgramError::InvalidInstructionData);
        }
        let amount = read_u64(data, 0);
        let min_x = read_u64(data, 8);
        let min_y = read_u64(data, 16);
        let expiration = read_i64(data, 24);
        if amount == 0 {
            return Err(ProgramError::InvalidInstructionData);
        }
        Ok(WithdrawInstructionData { amount, min_x, min_y, expiration })
    }
}

/// The accounts of a withdrawal, by role.
#[derive(Clone, Copy, Debug)]
pub struct WithdrawAccounts<'a> {
    pub user: &'a AccountInfo,
    pub mint_lp: &'a AccountInfo,
    pub vault_x: &'a AccountInfo,
    pub vault_y: &'a AccountInfo,
    pub user_x_ata: &'a AccountInfo,
    pub user_y_ata: &'a AccountInfo,
    pub user_lp_ata: &'a AccountInfo,
    pub config: &'a AccountInfo,
    pub token_program: &'a AccountInfo,
}

impl<'a> WithdrawAccounts<'a> {
    /// The number of accounts a withdrawal takes: the nine named ones and
    /// one more that it does not read.
    pub const COUNT: usize = 10;

    /// Names the accounts by position. Any other number of accounts than
    /// `COUNT` is refused.
    pub fn try_from(accounts: &'a [AccountInfo]) -> (r: Result<WithdrawAccounts<'a>, ProgramError>)
        ensures
            accounts@.len() != Self::COUNT ==> fails_with(r, ProgramError::NotEnoughAccountKeys),
            accounts@.len() == Self::COUNT ==> (r matches Ok(a) && {
                &&& *a.user == accounts@[0]
                &&& *a.mint_lp == accounts@[1]
                &&& *a.vault_x == accounts@[2]
                &&& *a.vault_y == accounts@[3]
                &&& *a.user_x_ata == accounts@[4]
                &&& *a.user_y_ata == accounts@[5]
                &&& *a.user_lp_ata == accounts@[6]
                &&& *a.config == accounts@[7]
                &&& *a.token_program == accounts@[8]
            }),
    {
        if accounts.len() != Self::COUNT {
            return Err(ProgramError::NotEnoughAccountKeys);
        }
        Ok(
            WithdrawAccounts {
                user: &accounts[0],
                mint_lp: &accounts[1],
                vault_x: &accounts[2],
                vault_y: &accounts[3],
                user_x_ata: &accounts[4],
                user_y_ata: &accounts[5],
                user_lp_ata: &accounts[6],
                config: &accounts[7],
                token_program: &accounts[8],
            },
        )
    }
}

/// A withdrawal: its accounts and its arguments.
#[derive(Clone, Copy, Debug)]
pub struct Withdraw<'a> {
    pub accounts: WithdrawAccounts<'a>,
    pub instruction_data: WithdrawInstructionData,
}

impl<'a> Withdraw<'a> {
    /// The tag that selects a withdrawal.
    pub const DISCRIMINATOR: u8 = 2;

    /// Builds a withdrawal from its payload and its accounts: the accounts
    /// are named first, then the payload is decoded.
    pub fn try_from(data: &[u8], accounts: &'a [AccountInfo]) -> (r: Result<Withdraw<'a>, ProgramError>)
        ensures
            accounts@.len() != WithdrawAccounts::COUNT ==> fails_with(
                r,
                ProgramError::NotEnoughAccountKeys,
            ),
            accounts@.len() == WithdrawAccounts::COUNT ==> match r {
                Ok(w) => {
                    &&& WithdrawInstructionData::parse(data@) == Ok::<
                        WithdrawInstructionData,
                        ProgramError,
                    >(w.instruction_data)
                    &&& *w.accounts.user == accounts@[0]
                    &&& *w.accounts.mint_lp == accounts@[1]
                    &&& *w.accounts.vault_x == accounts@[2]
                    &&& *w.accounts.vault_y == accounts@[3]
                    &&& *w.accounts.user_x_ata == accounts@[4]
                    &&& *w.accounts.user_y_ata == accounts@[5]
                    &&& *w.accounts.user_lp_ata == accounts@[6]
                    &&& *w.accounts.config == accounts@[7]
                    &&& *w.accounts.token_program == accounts@[8]
                },
                Err(e) => WithdrawInstructionData::parse(data@) == Err::<
                    WithdrawInstructionData,
                    ProgramError,
                >(e),
            },
    {
        let accounts = WithdrawAccounts::try_from(accounts)?;
        let instruction_data = WithdrawInstructionData::try_from(data)?;
        Ok(Withdraw { accounts, instruction_data })
    }

    /// The legs of a withdrawal that pays out `x` and `y`: the claims burnt
    /// from the caller, then X and Y out of the vaults under the pool's
    /// custody. The caller's claim account stays open even where the burn
    /// empties it; closing it is left to its holder.
    pub open spec fn legs(&self, config: Config, x: u64, y: u64) -> Seq<Settlement> {
        seq![
            Settlement::Burn {
                account: self.accounts.user_lp_ata.key,
                mint: self.accounts.mint_lp.key,
                authority: self.accounts.user.key,
                amount: self.instruction_data.amount,
                custody: None,
            },
            Settlement::Transfer {
                from: self.accounts.vault_x.key,
                to: self.accounts.user_x_ata.key,
                authority: self.accounts.config.key,
                amount: x,
                custody: Some(config.config_seeds_spec()),
            },
            Settlement::Transfer {
                from: self.accounts.vault_y.key,
                to: self.accounts.user_y_ata.key,
                authority: self.accounts.config.key,
                amount: y,
                custody: Some(config.config_seeds_spec()),
            },
        ]
    }

    /// The rule of a withdrawal at time `now`, given what the host derived
    /// for the pool's custody address. In this order: a passed deadline or a
    /// zero amount is an argument error; the configuration record must load;
    /// the pool must be open or withdraw-only, else the state error; the
    /// caller must have signed; the derivation must prove the custody
    /// address, else a seed error; the balances must be readable; each vault
    /// must hold the token that the record names, else a data error; the
    /// curve gives the amounts or its slippage or overflow error; then the
    /// legs.
    pub open spec fn settle_spec(&self, now: i64, derived: Option<(Pubkey, u8)>) -> Result<
        Seq<Settlement>,
        ProgramError,
    > {
        let data = self.instruction_data;
        let accounts = self.accounts;
        let config = Config::decoded(accounts.config.data@);
        if now > data.expiration || !data.wf() {
            Err(ProgramError::InvalidInstructionData)
        } else if Config::load_error(accounts.config) is Some {
            Err(Config::load_error(accounts.config)->Some_0)
        } else if config.state_spec() != AmmState::Initialized && config.state_spec()
            != AmmState::WithdrawOnly {
            Err(ProgramError::Custom(AmmError::InvalidAmmState.code_spec()))
        } else if !accounts.user.is_signer {
            Err(ProgramError::MissingRequiredSignature)
        } else if !config.config_seeds_spec().proves(accounts.config.key, derived) {
            Err(ProgramError::InvalidSeeds)
        } else {
            match pool_balances_spec(
                accounts.mint_lp,
                accounts.vault_x,
                accounts.vault_y,
                config.fee_spec(),
            ) {
                Err(e) => Err(e),
                Ok(curve) => if TokenAccountInterface::check_mint_spec(
                    accounts.vault_x,
                    config.mint_x_spec(),
                ) is Err || TokenAccountInterface::check_mint_spec(
                    accounts.vault_y,
                    config.mint_y_spec(),
                ) is Err {
                    Err(ProgramError::InvalidAccountData)
                } else {
                    match curve.withdraw_liquidity_spec(data.amount, data.min_x, data.min_y) {
                        Err(e) => Err(e),
                        Ok(w) => Ok(self.legs(config, w.x, w.y)),
                    }
                },
            }
        }
    }

    /// Decides a withdrawal at time `now`, given what the host derived for
    /// the pool's custody address.
    pub fn settle(&self, now: i64, derived: Option<(Pubkey, u8)>) -> (r: Result<
        Vec<Settlement>,
        ProgramError,
    >)
        ensures
            result_is(r, self.settle_spec(now, derived)),
            now > self.instruction_data.expiration ==> fails_with(
                r,
                ProgramError::InvalidInstructionData,
            ),
    {
        let data = &self.instruction_data;
        let accounts = &self.accounts;
        if now > data.expiration || data.amount == 0 {
            return Err(ProgramError::InvalidInstructionData);
        }
        let config = match Config::load(accounts.config) {
            Ok(c) => c,
            Err(e) => {
                return Err(e);
            },
        };
        proof {
            Config::lemma_decodes_unique(config, config, accounts.config.data@);
        }
        if !config.state().allows_withdrawal() {
            return Err(ProgramError::Custom(AmmError::InvalidAmmState.code()));
        }
        if !accounts.user.is_signer() {
            return Err(ProgramError::MissingRequiredSignature);
        }
        let seeds = config.config_seeds();
        if seeds.confirm(accounts.config, derived).is_err() {
            return Err(ProgramError::InvalidSeeds);
        }
        let mut curve = pool_balances(accounts.mint_lp, accounts.vault_x, accounts.vault_y, config.fee())?;
        if TokenAccountInterface::check_mint(accounts.vault_x, config.mint_x()).is_err()
            || TokenAccountInterface::check_mint(accounts.vault_y, config.mint_y()).is_err() {
            return Err(ProgramError::InvalidAccountData);
        }
        let paid = curve.withdraw_liquidity(data.amount, data.min_x, data.min_y)?;
        let mut legs: Vec<Settlement> = Vec::new();
        legs.push(burn_tokens(accounts.user_lp_ata, accounts.mint_lp, accounts.user, data.amount));
        legs.push(transfer_tokens_signed(accounts.vault_x, accounts.user_x_ata, accounts.config, paid.x, &seeds));
        legs.push(transfer_tokens_signed(accounts.vault_y, accounts.user_y_ata, accounts.config, paid.y, &seeds));
        assert(legs@ =~= self.legs(config, paid.x, paid.y));
        Ok(legs)
    }

    /// Decides a withdrawal at time `now`, re-deriving the pool's custody
    /// address on the way. Whatever the host derives, the result is the one
    /// `settle` gives on it; a withdrawal past its deadline fails with the
    /// argument error before anything else is looked at.
    pub fn process(&self, now: i64) -> (r: Result<Vec<Settlement>, ProgramError>)
        ensures
            exists|derived: Option<(Pubkey, u8)>|
                {
                    &&& Config::custody_derivation(self.accounts.config, derived)
                    &&& #[trigger] result_is(r, self.settle_spec(now, derived))
                },
            now > self.instruction_data.expiration ==> fails_with(
                r,
                ProgramError::InvalidInstructionData,
            ),
    {
        let derived = Config::derive_custody(self.accounts.config);
        let r = self.settle(now, derived);
        assert(Config::custody_derivation(self.accounts.config, derived) && result_is(
            r,
            self.settle_spec(now, derived),
        ));
        r
    }
}

/// A withdrawal that is in time and well-formed, against a pool whose record
/// loads, fails with the state error whenever the pool is neither open nor
/// withdraw-only, whatever else holds; and never fails with that error when
/// the pool is one of the two.
pub proof fn lemma_withdraw_state_gate(w: Withdraw, now: i64, derived: Option<(Pubkey, u8)>)
    requires
        now <= w.instruction_data.expiration,
        w.instruction_data.wf(),
        Config::load_error(w.accounts.config) is None,
    ensures
        ({
            let state = Config::decoded(w.accounts.config.data@).state_spec();
            state != AmmState::Initialized && state != AmmState::WithdrawOnly
        }) <==> w.settle_spec(now, derived) == Err::<Seq<Settlement>, ProgramError>(
            ProgramError::Custom(AmmError::InvalidAmmState.code_spec()),
        ),
{
}

/// A withdraw-only pool still pays out: a withdrawal that is in time, signed
/// and within what the curve gives succeeds there with the legs that the
/// curve's amounts call for.
pub proof fn lemma_withdraw_only_pays_out(w: Withdraw, now: i64, derived: Option<(Pubkey, u8)>)
    requires
        now <= w.instruction_data.expiration,
        w.instruction_data.wf(),
        Config::load_error(w.accounts.config) is None,
        Config::decoded(w.accounts.config.data@).state_spec() == AmmState::WithdrawOnly,
        w.accounts.user.is_signer,
        Config::decoded(w.accounts.config.data@).config_seeds_spec().proves(
            w.accounts.config.key,
            derived,
        ),
        pool_balances_spec(
            w.accounts.mint_lp,
            w.accounts.vault_x,
            w.accounts.vault_y,
            Config::decoded(w.accounts.config.data@).fee_spec(),
        ) is Ok,
        TokenAccountInterface::check_mint_spec(
            w.accounts.vault_x,
            Config::decoded(w.accounts.config.data@).mint_x_spec(),
        ) is Ok,
        TokenAccountInterface::check_mint_spec(
            w.accounts.vault_y,
            Config::decoded(w.accounts.config.data@).mint_y_spec(),
        ) is Ok,
        pool_balances_spec(
            w.accounts.mint_lp,
            w.accounts.vault_x,
            w.accounts.vault_y,
            Config::decoded(w.accounts.config.data@).fee_spec(),
        )->Ok_0.withdraw_liquidity_spec(
            w.instruction_data.amount,
            w.instruction_data.min_x,
            w.instruction_data.min_y,
        ) is Ok,
    ensures
        ({
            let config = Config::decoded(w.accounts.config.data@);
            let curve = pool_balances_spec(
                w.accounts.mint_lp,
                w.accounts.vault_x,
                w.accounts.vault_y,
                config.fee_spec(),
            )->Ok_0;
            let paid = curve.withdraw_liquidity_spec(
                w.instruction_data.amount,
                w.instruction_data.min_x,
                w.instruction_data.min_y,
            )->Ok_0;
            w.settle_spec(now, derived) == Ok::<Seq<Settlement>, ProgramError>(
                w.legs(config, paid.x, paid.y),
            )
        }),
{
}

} // verus!
