//! The persisted pool configuration and its lifecycle state.

use vstd::prelude::*;
use crate::codec::{le_u16, le_u64, put_pubkey, put_u16, put_u64, read_pubkey, read_u16, read_u64, u16_le, u64_le, u64_to_le_array, lemma_u16_round_trip, lemma_u64_round_trip};
use crate::curve::BPS_DENOMINATOR;
use crate::errors::ProgramError;
use crate::helpers::AccountInfo;
use crate::pda::{check_derived_with_bump, check_derived_with_bump_spec, derives, find_program_address, seeds_view};
use crate::programs::ID;
use crate::pubkey::{Pubkey, ZERO_PUBKEY, lemma_pubkey_of, pubkey_eq, pubkey_of};

verus! {

/// Where a pool stands in its life. Only `Initialized` admits deposits and
/// trades; `Initialized` and `WithdrawOnly` admit withdrawals.
#[derive(Clone, Copy, Debug, PartialEq, Eq, Structural)]
pub enum AmmState {
    Uninitialized,
    Initialized,
    Disabled,
    WithdrawOnly,
}

impl AmmState {
    /// The byte under which the state is stored.
    pub open spec fn to_u8_spec(self) -> u8 {
        match self {
            AmmState::Uninitialized => 0,
            AmmState::Initialized => 1,
            AmmState::Disabled => 2,
            AmmState::WithdrawOnly => 3,
        }
    }

    /// The state that a stored byte stands for, if any.
    pub open spec fn from_u8_spec(b: u8) -> Option<AmmState> {
        if b == 0 {
            Some(AmmState::Uninitialized)
        } else if b == 1 {
            Some(AmmState::Initialized)
        } else if b == 2 {
            Some(AmmState::Disabled)
        } else if b == 3 {
            Some(AmmState::WithdrawOnly)
        } else {
            None
        }
    }

    /// The byte under which the state is stored.
    pub fn to_u8(self) -> (r: u8)
        ensures
            r == self.to_u8_spec(),
            Self::from_u8_spec(r) == Some(self),
    {
        match self {
            AmmState::Uninitialized => 0,
            AmmState::Initialized => 1,
            AmmState::Disabled => 2,
            AmmState::WithdrawOnly => 3,
        }
    }

    /// The state that a stored byte stands for, if any.
    pub fn from_u8(b: u8) -> (r: Option<AmmState>)
        ensures
            r == Self::from_u8_spec(b),
    {
        match b {
            0 => Some(AmmState::Uninitialized),
            1 => Some(AmmState::Initialized),
            2 => Some(AmmState::Disabled),
            3 => Some(AmmState::WithdrawOnly),
            _ => None,
        }
    }

    /// Whether deposits and trades may run.
    pub fn allows_trading(self) -> (r: bool)
        ensures
            r == (self == AmmState::Initialized),
    {
        self == AmmState::Initialized
    }

    /// Whether withdrawals may run.
    pub fn allows_withdrawal(self) -> (r: bool)
        ensures
            r == (self == AmmState::Initialized || self == AmmState::WithdrawOnly),
    {
        self == AmmState::Initialized || self == AmmState::WithdrawOnly
    }
}

/// The seed material from which the pool's custody address is derived: the
/// tag, the pool seed, the two mints and the bump. Whoever presents it to a
/// settlement primitive acts for the pool; it is built in one place, from a
/// configuration record.
#[derive(Clone, Copy, Debug, PartialEq, Eq)]
pub struct ConfigSeeds {
    pub seed: u64,
    pub mint_x: Pubkey,
    pub mint_y: Pubkey,
    pub bump: u8,
}

impl ConfigSeeds {
    /// The seed tuple as the host hashes it: the tag, the pool seed in
    /// little-endian bytes, and the two mints.
    pub open spec fn tuple(&self) -> Seq<Seq<u8>> {
        seq![CONFIG_SEED_PREFIX@, u64_le(self.seed), self.mint_x@, self.mint_y@]
    }

    /// Re-derives the custody address from the tuple for the pool program.
    /// `None` when the host declines to derive.
    pub fn derive(&self) -> (r: Option<(Pubkey, u8)>)
        ensures
            derives(r, self.tuple(), ID@),
    {
        let seed = u64_to_le_array(self.seed);
        let seeds: [&[u8]; 4] = [
            CONFIG_SEED_PREFIX.as_slice(),
            seed.as_slice(),
            self.mint_x.as_slice(),
            self.mint_y.as_slice(),
        ];
        let tuple: &[&[u8]] = seeds.as_slice();
        proof {
            assert(seeds_view(tuple) =~= self.tuple());
        }
        find_program_address(tuple, &ID)
    }

    /// Whether `derived` proves that the account at `key` is the custody
    /// address of these seeds: the host derived that very address, and the
    /// stored bump is the canonical one.
    pub open spec fn proves(&self, key: Pubkey, derived: Option<(Pubkey, u8)>) -> bool {
        check_derived_with_bump_spec(key, self.bump, derived) is Ok
    }

    /// Confirms a derivation against the account that claims to be the pool's
    /// custody address. Fails with a seed error unless `derived` proves it.
    pub fn confirm(&self, account: &AccountInfo, derived: Option<(Pubkey, u8)>) -> (r: Result<
        (),
        ProgramError,
    >)
        ensures
            r == if self.proves(account.key, derived) {
                Ok::<(), ProgramError>(())
            } else {
                Err(ProgramError::InvalidSeeds)
            },
    {
        check_derived_with_bump(account, self.bump, derived)
    }
}

/// The parameters of one pool.
#[derive(Clone, Copy, Debug, PartialEq, Eq)]
pub struct Config {
    seed: u64,
    authority: Pubkey,
    mint_x: Pubkey,
    mint_y: Pubkey,
    fee: u16,
    state: AmmState,
    config_bump: u8,
    lp_bump: u8,
}

/// The fractional digits of every pool's claim token.
pub const LP_DECIMALS: u8 = 6;

/// The fixed tag that opens the custody seed tuple.
pub const CONFIG_SEED_PREFIX: [u8; 6] = [0x63, 0x6f, 0x6e, 0x66, 0x69, 0x67];

/// The fixed tag that opens the claim-token mint's seed tuple.
pub const MINT_LP_SEED_PREFIX: [u8; 7] = [0x6d, 0x69, 0x6e, 0x74, 0x5f, 0x6c, 0x70];

impl Config {
    /// The size of the stored record.
    pub const LEN: usize = 109;

    /// The caller's disambiguator, part of the custody seed tuple.
    pub closed spec fn seed_spec(&self) -> u64 {
        self.seed
    }

    /// Who may change the pool's state; all zero for nobody.
    pub closed spec fn authority_spec(&self) -> Pubkey {
        self.authority
    }

    /// The first token the pool custodies.
    pub closed spec fn mint_x_spec(&self) -> Pubkey {
        self.mint_x
    }

    /// The second token the pool custodies.
    pub closed spec fn mint_y_spec(&self) -> Pubkey {
        self.mint_y
    }

    /// The swap fee in basis points.
    pub closed spec fn fee_spec(&self) -> u16 {
        self.fee
    }

    /// Where the pool stands in its life.
    pub closed spec fn state_spec(&self) -> AmmState {
        self.state
    }

    /// The bump of the pool's custody address.
    pub closed spec fn config_bump_spec(&self) -> u8 {
        self.config_bump
    }

    /// The bump of the claim-token mint's address.
    pub closed spec fn lp_bump_spec(&self) -> u8 {
        self.lp_bump
    }

    /// A pool in use custodies two different tokens and keeps at most the
    /// whole input as fee.
    pub open spec fn wf(&self) -> bool {
        self.state_spec() != AmmState::Uninitialized ==> self.mint_x_spec() != self.mint_y_spec()
            && self.fee_spec() <= BPS_DENOMINATOR
    }

    /// The stored form: seed, authority, the two mints, fee, state and the
    /// two bumps, in this order and without padding.
    pub open spec fn bytes(&self) -> Seq<u8> {
        u64_le(self.seed_spec()) + self.authority_spec()@ + self.mint_x_spec()@
            + self.mint_y_spec()@ + u16_le(self.fee_spec()) + seq![
            self.state_spec().to_u8_spec(),
            self.config_bump_spec(),
            self.lp_bump_spec(),
        ]
    }

    /// Whether the record's fields are the ones stored in `data`.
    pub open spec fn decodes(&self, data: Seq<u8>) -> bool {
        &&& data.len() == Self::LEN
        &&& self.seed_spec() == le_u64(data.subrange(0, 8))
        &&& self.authority_spec()@ == data.subrange(8, 40)
        &&& self.mint_x_spec()@ == data.subrange(40, 72)
        &&& self.mint_y_spec()@ == data.subrange(72, 104)
        &&& self.fee_spec() == le_u16(data.subrange(104, 106))
        &&& AmmState::from_u8_spec(data[106]) == Some(self.state_spec())
        &&& self.config_bump_spec() == data[107]
        &&& self.lp_bump_spec() == data[108]
    }

    /// Whether `data` holds a record: the right length, a known state, and,
    /// for a pool in use, two different mints and a fee within bounds.
    pub open spec fn well_formed_bytes(data: Seq<u8>) -> bool {
        &&& data.len() == Self::LEN
        &&& AmmState::from_u8_spec(data[106]) is Some
        &&& data[106] != 0 ==> data.subrange(40, 72) != data.subrange(72, 104) && le_u16(
            data.subrange(104, 106),
        ) <= BPS_DENOMINATOR
    }

    /// Reads a record from its stored form, with every bound checked.
    pub fn unpack(data: &[u8]) -> (r: Result<Config, ProgramError>)
        ensures
            match r {
                Ok(c) => Self::well_formed_bytes(data@) && c.decodes(data@) && c.wf(),
                Err(e) => !Self::well_formed_bytes(data@) && e == ProgramError::InvalidAccountData,
            },
    {
        if data.len() != Self::LEN {
            return Err(ProgramError::InvalidAccountData);
        }
        let state = match AmmState::from_u8(data[106]) {
            Some(s) => s,
            None => {
                return Err(ProgramError::InvalidAccountData);
            },
        };
        let seed = read_u64(data, 0);
        let authority = read_pubkey(data, 8);
        let mint_x = read_pubkey(data, 40);
        let mint_y = read_pubkey(data, 72);
        let fee = read_u16(data, 104);
        proof {
            if mint_x == mint_y {
                assert(data@.subrange(40, 72) == data@.subrange(72, 104));
            } else {
                assert(!(mint_x =~= mint_y));
                assert(data@.subrange(40, 72) != data@.subrange(72, 104));
            }
        }
        if data[106] != 0 && (pubkey_eq(&mint_x, &mint_y) || fee > BPS_DENOMINATOR) {
            return Err(ProgramError::InvalidAccountData);
        }
        Ok(
            Config {
                seed,
                authority,
                mint_x,
                mint_y,
                fee,
                state,
                config_bump: data[107],
                lp_bump: data[108],
            },
        )
    }

    /// The stored form of the record.
    pub fn pack(&self) -> (r: Vec<u8>)
        ensures
            r@ == self.bytes(),
            r@.len() == Self::LEN,
    {
        let mut out: Vec<u8> = Vec::new();
        put_u64(&mut out, self.seed);
        put_pubkey(&mut out, &self.authority);
        put_pubkey(&mut out, &self.mint_x);
        put_pubkey(&mut out, &self.mint_y);
        put_u16(&mut out, self.fee);
        out.push(self.state.to_u8());
        out.push(self.config_bump);
        out.push(self.lp_bump);
        assert(out@ =~= self.bytes());
        out
    }

    /// Reads the record that a configuration account holds: the account must
    /// have the record's length and belong to the pool program.
    pub fn load(account: &AccountInfo) -> (r: Result<Config, ProgramError>)
        ensures
            match r {
                Ok(c) => Self::load_error(account) is None && c.decodes(account.data@) && c.wf(),
                Err(e) => Self::load_error(account) == Some(e),
            },
    {
        if account.data.len() != Self::LEN {
            return Err(ProgramError::InvalidAccountData);
        }
        if !pubkey_eq(&account.owner, &ID) {
            return Err(ProgramError::InvalidAccountOwner);
        }
        Self::unpack(account.data.as_slice())
    }

    /// Why an account cannot be read as a configuration record, if it cannot.
    pub open spec fn load_error(account: &AccountInfo) -> Option<ProgramError> {
        if account.data@.len() != Self::LEN {
            Some(ProgramError::InvalidAccountData)
        } else if account.owner != ID {
            Some(ProgramError::InvalidAccountOwner)
        } else if !Self::well_formed_bytes(account.data@) {
            Some(ProgramError::InvalidAccountData)
        } else {
            None
        }
    }

    /// A record of a pool that is open for business. Two equal mints or a fee
    /// above the whole input are refused.
    pub fn new(
        seed: u64,
        authority: Pubkey,
        mint_x: Pubkey,
        mint_y: Pubkey,
        fee: u16,
        config_bump: u8,
        lp_bump: u8,
    ) -> (r: Result<Config, ProgramError>)
        ensures
            r is Ok <==> mint_x != mint_y && fee <= BPS_DENOMINATOR,
            r is Err ==> r == Err::<Config, ProgramError>(ProgramError::InvalidInstructionData),
            r matches Ok(c) ==> {
                &&& c.wf()
                &&& c.seed_spec() == seed
                &&& c.authority_spec() == authority
                &&& c.mint_x_spec() == mint_x
                &&& c.mint_y_spec() == mint_y
                &&& c.fee_spec() == fee
                &&& c.state_spec() == AmmState::Initialized
                &&& c.config_bump_spec() == config_bump
                &&& c.lp_bump_spec() == lp_bump
            },
    {
        if pubkey_eq(&mint_x, &mint_y) || fee > BPS_DENOMINATOR {
            return Err(ProgramError::InvalidInstructionData);
        }
        Ok(
            Config {
                seed,
                authority,
                mint_x,
                mint_y,
                fee,
                state: AmmState::Initialized,
                config_bump,
                lp_bump,
            },
        )
    }

    /// Overwrites every field and opens the pool for business. Two equal
    /// mints or a fee above the whole input are refused, and the record stays
    /// as it was.
    pub fn set_inner(
        &mut self,
        seed: u64,
        authority: Pubkey,
        mint_x: Pubkey,
        mint_y: Pubkey,
        fee: u16,
        config_bump: u8,
        lp_bump: u8,
    ) -> (r: Result<(), ProgramError>)
        ensures
            old(self).wf() || r is Ok ==> final(self).wf(),
            r == if mint_x != mint_y && fee <= BPS_DENOMINATOR {
                Ok::<(), ProgramError>(())
            } else {
                Err(ProgramError::InvalidInstructionData)
            },
            r is Err ==> *final(self) == *old(self),
            r is Ok ==> {
                &&& final(self).seed_spec() == seed
                &&& final(self).authority_spec() == authority
                &&& final(self).mint_x_spec() == mint_x
                &&& final(self).mint_y_spec() == mint_y
                &&& final(self).fee_spec() == fee
                &&& final(self).state_spec() == AmmState::Initialized
                &&& final(self).config_bump_spec() == config_bump
                &&& final(self).lp_bump_spec() == lp_bump
            },
    {
        match Self::new(seed, authority, mint_x, mint_y, fee, config_bump, lp_bump) {
            Ok(config) => {
                *self = config;
                Ok(())
            },
            Err(e) => Err(e),
        }
    }

    /// The caller's disambiguator.
    pub fn seed(&self) -> (r: u64)
        ensures
            r == self.seed_spec(),
    {
        self.seed
    }

    /// Who may change the pool's state; all zero for nobody.
    pub fn authority(&self) -> (r: &Pubkey)
        ensures
            *r == self.authority_spec(),
    {
        &self.authority
    }

    /// Whether a principal may change the pool's state.
    pub fn has_authority(&self) -> (r: bool)
        ensures
            r == (self.authority_spec() != ZERO_PUBKEY),
    {
        !pubkey_eq(&self.authority, &ZERO_PUBKEY)
    }

    /// The first token the pool custodies.
    pub fn mint_x(&self) -> (r: &Pubkey)
        ensures
            *r == self.mint_x_spec(),
    {
        &self.mint_x
    }

    /// The second token the pool custodies.
    pub fn mint_y(&self) -> (r: &Pubkey)
        ensures
            *r == self.mint_y_spec(),
    {
        &self.mint_y
    }

    /// The swap fee in basis points.
    pub fn fee(&self) -> (r: u16)
        ensures
            r == self.fee_spec(),
    {
        self.fee
    }

    /// Where the pool stands in its life.
    pub fn state(&self) -> (r: AmmState)
        ensures
            r == self.state_spec(),
    {
        self.state
    }

    /// The bump of the pool's custody address.
    pub fn config_bump(&self) -> (r: u8)
        ensures
            r == self.config_bump_spec(),
    {
        self.config_bump
    }

    /// The bump of the claim-token mint's address.
    pub fn lp_bump(&self) -> (r: u8)
        ensures
            r == self.lp_bump_spec(),
    {
        self.lp_bump
    }

    /// Whether `derived` may be what the host answers when the custody
    /// address of the pool recorded in `account` is re-derived: nothing where
    /// no record loads or the host declines, else the derived address and bump.
    pub open spec fn custody_derivation(account: &AccountInfo, derived: Option<(Pubkey, u8)>) -> bool {
        if Self::load_error(account) is Some {
            derived is None
        } else {
            derives(derived, Self::decoded(account.data@).config_seeds_spec().tuple(), ID@)
        }
    }

    /// Re-derives the custody address of the pool recorded in `account`.
    /// Every operation goes through here, so that the seed tuple is put
    /// together in one place.
    pub fn derive_custody(account: &AccountInfo) -> (r: Option<(Pubkey, u8)>)
        ensures
            Self::custody_derivation(account, r),
    {
        match Self::load(account) {
            Ok(config) => {
                proof {
                    Self::lemma_decodes_unique(config, config, account.data@);
                }
                config.config_seeds().derive()
            },
            Err(_) => None,
        }
    }

    /// The seed tuple that stands for the pool's custody authority.
    pub open spec fn config_seeds_spec(&self) -> ConfigSeeds {
        ConfigSeeds {
            seed: self.seed_spec(),
            mint_x: self.mint_x_spec(),
            mint_y: self.mint_y_spec(),
            bump: self.config_bump_spec(),
        }
    }

    /// The seed tuple that stands for the pool's custody authority.
    pub fn config_seeds(&self) -> (r: ConfigSeeds)
        ensures
            r == self.config_seeds_spec(),
    {
        ConfigSeeds {
            seed: self.seed,
            mint_x: self.mint_x,
            mint_y: self.mint_y,
            bump: self.config_bump,
        }
    }

    /// An account that loads stores a record.
    pub proof fn lemma_loadable_decodes(account: &AccountInfo)
        requires
            Self::load_error(account) is None,
        ensures
            Self::decoded(account.data@).decodes(account.data@),
    {
        let data = account.data@;
        let c = Config {
            seed: le_u64(data.subrange(0, 8)) as u64,
            authority: pubkey_of(data.subrange(8, 40)),
            mint_x: pubkey_of(data.subrange(40, 72)),
            mint_y: pubkey_of(data.subrange(72, 104)),
            fee: le_u16(data.subrange(104, 106)) as u16,
            state: AmmState::from_u8_spec(data[106])->Some_0,
            config_bump: data[107],
            lp_bump: data[108],
        };
        lemma_pubkey_of(data.subrange(8, 40));
        lemma_pubkey_of(data.subrange(40, 72));
        lemma_pubkey_of(data.subrange(72, 104));
        assert(c.decodes(data));
    }

    /// The record of an account that loads is well-formed.
    pub proof fn lemma_loadable_wf(account: &AccountInfo)
        requires
            Self::load_error(account) is None,
        ensures
            Self::decoded(account.data@).wf(),
    {
        Self::lemma_loadable_decodes(account);
        let c = Self::decoded(account.data@);
        let data = account.data@;
        if c.state != AmmState::Uninitialized {
            assert(data[106] != 0);
            if c.mint_x == c.mint_y {
                assert(data.subrange(40, 72) == data.subrange(72, 104));
            }
        }
    }

    /// The record that `data` stores, where it stores one.
    pub open spec fn decoded(data: Seq<u8>) -> Config {
        choose|c: Config| c.decodes(data)
    }

    /// At most one record is stored in given bytes.
    pub proof fn lemma_decodes_unique(c: Config, d: Config, data: Seq<u8>)
        requires
            c.decodes(data),
            d.decodes(data),
        ensures
            c == d,
            c == Self::decoded(data),
    {
        assert(c.authority =~= d.authority);
        assert(c.mint_x =~= d.mint_x);
        assert(c.mint_y =~= d.mint_y);
        let e = Self::decoded(data);
        assert(e.decodes(data));
        assert(c.authority =~= e.authority);
        assert(c.mint_x =~= e.mint_x);
        assert(c.mint_y =~= e.mint_y);
    }
}

/// A record read back from its own stored form is the record.
pub proof fn lemma_config_round_trip(c: Config)
    requires
        c.wf(),
    ensures
        c.bytes().len() == Config::LEN,
        Config::well_formed_bytes(c.bytes()),
        c.decodes(c.bytes()),
{
    let b = c.bytes();
    lemma_u64_round_trip(c.seed_spec());
    lemma_u16_round_trip(c.fee_spec());
    assert(b.subrange(0, 8) =~= u64_le(c.seed_spec()));
    assert(b.subrange(8, 40) =~= c.authority_spec()@);
    assert(b.subrange(40, 72) =~= c.mint_x_spec()@);
    assert(b.subrange(72, 104) =~= c.mint_y_spec()@);
    assert(b.subrange(104, 106) =~= u16_le(c.fee_spec()));
    if c.state_spec() != AmmState::Uninitialized {
        assert(!(c.mint_x_spec() =~= c.mint_y_spec()));
    }
}

} // verus!
