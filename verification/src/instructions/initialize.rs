//! Initialize: create a pool's configuration record and its claim-token mint.

use vstd::prelude::*;
use crate::codec::{le_u16, le_u64, read_pubkey, read_u16, read_u64};
use crate::curve::BPS_DENOMINATOR;
use crate::errors::ProgramError;
use crate::helpers::{AccountInfo, CreateAccountPlan, CreateMintPlan, Mint, MintInterface, ProgramAccount};
use crate::instructions::fails_with;
use crate::pda::derives;
use crate::programs::ID;
use crate::pubkey::{Pubkey, ZERO_PUBKEY};
use crate::state::{AmmState, Config, ConfigSeeds, LP_DECIMALS};

verus! {

/// The arguments of an initialization.
#[derive(Clone, Copy, Debug, PartialEq, Eq)]
pub struct InitializeInstructionData {
    /// The caller's disambiguator for the pool.
    pub seed: u64,
    /// The swap fee in basis points.
    pub fee: u16,
    /// The first token the pool custodies.
    pub mint_x: [u8; 32],
    /// The second token the pool custodies.
    pub mint_y: [u8; 32],
    /// The bump of the pool's custody address.
    pub config_bump: [u8; 1],
    /// The bump of the claim-token mint's address.
    pub lp_bump: [u8; 1],
    /// Who may change the pool's state; all zero for nobody.
    pub authority: [u8; 32],
}

impl InitializeInstructionData {
    /// The size of the encoded arguments with an authority.
    pub const LEN_WITH_AUTHORITY: usize = 108;

    /// The size of the encoded arguments without an authority.
    pub const LEN: usize = 76;

    /// Whether the fields are the ones that a payload encodes: seed, fee,
    /// the two mints and the two bumps, then the authority where the payload
    /// has one and zeros where it has none; little-endian, without padding.
    pub open spec fn decodes(&self, data: Seq<u8>) -> bool {
        &&& data.len() == Self::LEN_WITH_AUTHORITY || data.len() == Self::LEN
        &&& self.seed == le_u64(data.subrange(0, 8))
        &&& self.fee == le_u16(data.subrange(8, 10))
        &&& self.mint_x@ == data.subrange(10, 42)
        &&& self.mint_y@ == data.subrange(42, 74)
        &&& self.config_bump@ == seq![data[74]]
        &&& self.lp_bump@ == seq![data[75]]
        &&& self.authority@ == if data.len() == Self::LEN_WITH_AUTHORITY {
            data.subrange(76, 108)
        } else {
            ZERO_PUBKEY@
        }
    }

    /// Decodes the arguments. A payload of neither length is refused.
    pub fn try_from(data: &[u8]) -> (r: Result<InitializeInstructionData, ProgramError>)
        ensures
            match r {
                Ok(d) => d.decodes(data@),
                Err(e) => e == ProgramError::InvalidInstructionData && data@.len()
                    != Self::LEN_WITH_AUTHORITY && data@.len() != Self::LEN,
            },
    {
        if data.len() != Self::LEN_WITH_AUTHORITY && data.len() != Self::LEN {
            return Err(ProgramError::InvalidInstructionData);
        }
        let authority = if data.len() == Self::LEN_WITH_AUTHORITY {
            read_pubkey(data, 76)
        } else {
            ZERO_PUBKEY
        };
        let config_bump: [u8; 1] = [data[74]];
        let lp_bump: [u8; 1] = [data[75]];
        assert(config_bump@ =~= seq![data@[74]]);
        assert(lp_bump@ =~= seq![data@[75]]);
        Ok(
            InitializeInstructionData {
                seed: read_u64(data, 0),
                fee: read_u16(data, 8),
                mint_x: read_pubkey(data, 10),
                mint_y: read_pubkey(data, 42),
                config_bump,
                lp_bump,
                authority,
            },
        )
    }
}

/// The accounts of an initialization, by role.
#[derive(Clone, Copy, Debug)]
pub struct InitializeAccounts<'a> {
    pub initializer: &'a AccountInfo,
    pub mint_lp: &'a AccountInfo,
    pub config: &'a AccountInfo,
    pub system_program: &'a AccountInfo,
    pub token_program: &'a AccountInfo,
}

impl<'a> InitializeAccounts<'a> {
    /// The number of accounts an initialization takes: the five named ones
    /// and one more that it does not read.
    pub const COUNT: usize = 6;

    /// Names the accounts by position. Any other number of accounts than
    /// `COUNT` is refused.
    pub fn try_from(accounts: &'a [AccountInfo]) -> (r: Result<InitializeAccounts<'a>, ProgramError>)
        ensures
            accounts@.len() != Self::COUNT ==> fails_with(r, ProgramError::NotEnoughAccountKeys),
            accounts@.len() == Self::COUNT ==> (r matches Ok(a) && {
                &&& *a.initializer == accounts@[0]
                &&& *a.mint_lp == accounts@[1]
                &&& *a.config == accounts@[2]
                &&& *a.system_program == accounts@[3]
                &&& *a.token_program == accounts@[4]
            }),
    {
        if accounts.len() != Self::COUNT {
            return Err(ProgramError::NotEnoughAccountKeys);
        }
        Ok(
            InitializeAccounts {
                initializer: &accounts[0],
                mint_lp: &accounts[1],
                config: &accounts[2],
                system_program: &accounts[3],
                token_program: &accounts[4],
            },
        )
    }
}

/// What an initialization has the host do, in order: create the
/// configuration account under the pool's custody and store the record in
/// it, then create the claim-token mint with the pool as its mint authority.
#[derive(Clone, Copy, Debug, PartialEq, Eq)]
pub struct InitializePlan {
    /// The account that will hold the record.
    pub config_account: CreateAccountPlan,
    /// The seed tuple that signs for the configuration account.
    pub custody: ConfigSeeds,
    /// The record to store.
    pub config: Config,
    /// The claim-token mint.
    pub mint: CreateMintPlan,
    /// The bump of the claim-token mint's address.
    pub lp_bump: u8,
}

/// An initialization: its accounts and its arguments.
#[derive(Clone, Copy, Debug)]
pub struct Initialize<'a> {
    pub accounts: InitializeAccounts<'a>,
    pub instruction_data: InitializeInstructionData,
}

impl<'a> Initialize<'a> {
    /// The tag that selects an initialization.
    pub const DISCRIMINATOR: u8 = 0;

    /// Builds an initialization from its payload and its accounts: the
    /// accounts are named first, then the payload is decoded.
    pub fn try_from(data: &[u8], accounts: &'a [AccountInfo]) -> (r: Result<Initialize<'a>, ProgramError>)
        ensures
            accounts@.len() != InitializeAccounts::COUNT ==> fails_with(
                r,
                ProgramError::NotEnoughAccountKeys,
            ),
            accounts@.len() == InitializeAccounts::COUNT ==> match r {
                Ok(i) => {
                    &&& i.instruction_data.decodes(data@)
                    &&& *i.accounts.initializer == accounts@[0]
                    &&& *i.accounts.mint_lp == accounts@[1]
                    &&& *i.accounts.config == accounts@[2]
                    &&& *i.accounts.system_program == accounts@[3]
                    &&& *i.accounts.token_program == accounts@[4]
                },
                Err(e) => e == ProgramError::InvalidInstructionData && data@.len()
                    != InitializeInstructionData::LEN_WITH_AUTHORITY && data@.len()
                    != InitializeInstructionData::LEN,
            },
    {
        let accounts = InitializeAccounts::try_from(accounts)?;
        let instruction_data = InitializeInstructionData::try_from(data)?;
        Ok(Initialize { accounts, instruction_data })
    }

    /// The seed tuple of the pool that the arguments describe.
    pub open spec fn custody_spec(&self) -> ConfigSeeds {
        ConfigSeeds {
            seed: self.instruction_data.seed,
            mint_x: self.instruction_data.mint_x,
            mint_y: self.instruction_data.mint_y,
            bump: self.instruction_data.config_bump[0],
        }
    }

    /// Why the initialization is refused, if it is, given what the host
    /// derived for the pool's custody address. In this order: occupied
    /// configuration storage means the pool exists already; two equal mints
    /// or a fee above the whole input are an argument error; the derivation
    /// must prove that the configuration account is the custody address.
    pub open spec fn refusal(&self, derived: Option<(Pubkey, u8)>) -> Option<ProgramError> {
        let data = self.instruction_data;
        let config = self.accounts.config;
        if config.lamports != 0 || config.data@.len() != 0 {
            Some(ProgramError::AccountAlreadyInitialized)
        } else if data.mint_x == data.mint_y || data.fee > BPS_DENOMINATOR {
            Some(ProgramError::InvalidInstructionData)
        } else if !self.custody_spec().proves(config.key, derived) {
            Some(ProgramError::InvalidSeeds)
        } else {
            None
        }
    }

    /// Whether `plan` is the plan of this initialization: the record holds
    /// the arguments and an open state, and the mint has six fractional
    /// digits and the pool as its authority.
    pub open spec fn plans(&self, plan: InitializePlan) -> bool {
        let data = self.instruction_data;
        &&& plan.config_account == (CreateAccountPlan {
            payer: self.accounts.initializer.key,
            account: self.accounts.config.key,
            space: Config::LEN,
            owner: ID,
        })
        &&& plan.custody == self.custody_spec()
        &&& plan.config.wf()
        &&& plan.config.seed_spec() == data.seed
        &&& plan.config.authority_spec() == data.authority
        &&& plan.config.mint_x_spec() == data.mint_x
        &&& plan.config.mint_y_spec() == data.mint_y
        &&& plan.config.fee_spec() == data.fee
        &&& plan.config.state_spec() == AmmState::Initialized
        &&& plan.config.config_bump_spec() == data.config_bump[0]
        &&& plan.config.lp_bump_spec() == data.lp_bump[0]
        &&& plan.config.config_seeds_spec() == plan.custody
        &&& plan.mint == (CreateMintPlan {
            account: CreateAccountPlan {
                payer: self.accounts.initializer.key,
                account: self.accounts.mint_lp.key,
                space: Mint::LEN,
                owner: self.accounts.token_program.key,
            },
            decimals: LP_DECIMALS,
            mint_authority: self.accounts.config.key,
        })
        &&& plan.lp_bump == data.lp_bump[0]
    }

    /// Decides an initialization, given what the host derived for the pool's
    /// custody address.
    pub fn settle(&self, derived: Option<(Pubkey, u8)>) -> (r: Result<InitializePlan, ProgramError>)
        ensures
            match r {
                Ok(plan) => self.refusal(derived) is None && self.plans(plan),
                Err(e) => self.refusal(derived) == Some(e),
            },
    {
        let data = &self.instruction_data;
        let accounts = &self.accounts;
        if ProgramAccount::check_uninitialized(accounts.config).is_err() {
            return Err(ProgramError::AccountAlreadyInitialized);
        }
        let config = match Config::new(
            data.seed,
            data.authority,
            data.mint_x,
            data.mint_y,
            data.fee,
            data.config_bump[0],
            data.lp_bump[0],
        ) {
            Ok(c) => c,
            Err(e) => {
                return Err(e);
            },
        };
        let custody = config.config_seeds();
        if custody.confirm(accounts.config, derived).is_err() {
            return Err(ProgramError::InvalidSeeds);
        }
        Ok(
            InitializePlan {
                config_account: ProgramAccount::init(accounts.initializer, accounts.config, Config::LEN),
                custody,
                config,
                mint: MintInterface::init(
                    accounts.initializer,
                    accounts.mint_lp,
                    LP_DECIMALS,
                    accounts.config.key(),
                    accounts.token_program.key(),
                ),
                lp_bump: data.lp_bump[0],
            },
        )
    }

    /// Decides an initialization, deriving the pool's custody address on the
    /// way. Whatever the host derives, the result is the one `settle` gives
    /// on it.
    pub fn process(&self) -> (r: Result<InitializePlan, ProgramError>)
        ensures
            exists|derived: Option<(Pubkey, u8)>|
                {
                    &&& derives(derived, self.custody_spec().tuple(), ID@)
                    &&& match r {
                        Ok(plan) => #[trigger] self.refusal(derived) is None && self.plans(plan),
                        Err(e) => self.refusal(derived) == Some(e),
                    }
                },
    {
        let data = &self.instruction_data;
        let derived = match Config::new(
            data.seed,
            data.authority,
            data.mint_x,
            data.mint_y,
            data.fee,
            data.config_bump[0],
            data.lp_bump[0],
        ) {
            Ok(config) => config.config_seeds().derive(),
            Err(_) => None,
        };
        self.settle(derived)
    }
}

} // verus!
