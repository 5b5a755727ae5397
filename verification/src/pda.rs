//! Program-derived addresses: the addresses that a program controls without a
//! private key, found from a tuple of seeds.

use vstd::prelude::*;
use crate::errors::ProgramError;
use crate::helpers::{AccountInfo, ProgramResult, TokenAccountInterface};
use crate::programs::ASSOCIATED_TOKEN_PROGRAM_ID;
use crate::pubkey::{Pubkey, pubkey_eq};
use crate::settlement::Settlement;

verus! {

/// The address and canonical bump that the host ledger derives from `seeds`
/// for `program_id`.
pub uninterp spec fn program_address(seeds: Seq<Seq<u8>>, program_id: Seq<u8>) -> (Seq<u8>, u8);

/// The seeds as plain byte strings.
pub open spec fn seeds_view(seeds: &[&[u8]]) -> Seq<Seq<u8>> {
    seeds@.map_values(|s: &[u8]| s@)
}

/// Whether `derived` may be what the host answers when asked to derive from
/// `seeds` for `program_id`: nothing, or the derived address and its bump.
pub open spec fn derives(derived: Option<(Pubkey, u8)>, seeds: Seq<Seq<u8>>, program_id: Seq<u8>) -> bool {
    derived matches Some(found) ==> (found.0@, found.1) == program_address(seeds, program_id)
}

/// Calls `pinocchio::pubkey::try_find_program_address`. Not proved: when the
/// host answers, the answer is the derived address and its canonical bump.
/// The host may decline (no viable bump; no derivation service on this
/// target), so nothing is promised about when it answers.
#[verifier::external_body]
pub(crate) fn find_program_address(seeds: &[&[u8]], program_id: &Pubkey) -> (r: Option<(Pubkey, u8)>)
    ensures
        r matches Some(found) ==> (found.0@, found.1) == program_address(
            seeds_view(seeds),
            program_id@,
        ),
{
    pinocchio::pubkey::try_find_program_address(seeds, program_id)
}

/// The address and bump of the token account that the associated-token
/// program keeps for `wallet` and `mint` under `token_program_id`.
pub open spec fn associated_token_address(
    wallet: Pubkey,
    mint: Pubkey,
    token_program_id: Pubkey,
) -> (Seq<u8>, u8) {
    program_address(seq![wallet@, token_program_id@, mint@], ASSOCIATED_TOKEN_PROGRAM_ID@)
}

/// Derives the associated token address of `wallet` for `mint`, with its bump.
/// `None` when the host declines to derive.
pub fn get_associated_token_address_and_bump(
    wallet: &Pubkey,
    mint: &Pubkey,
    token_program_id: &Pubkey,
) -> (r: Option<(Pubkey, u8)>)
    ensures
        r matches Some(found) ==> (found.0@, found.1) == associated_token_address(
            *wallet,
            *mint,
            *token_program_id,
        ),
{
    let seeds: [&[u8]; 3] = [wallet.as_slice(), token_program_id.as_slice(), mint.as_slice()];
    let tuple: &[&[u8]] = seeds.as_slice();
    proof {
        assert(seeds_view(tuple) =~= seq![wallet@, token_program_id@, mint@]);
    }
    find_program_address(tuple, &ASSOCIATED_TOKEN_PROGRAM_ID)
}

/// Derives the associated token address of `wallet` for `mint`. `None` when
/// the host declines to derive.
pub fn get_associated_token_address(wallet: &Pubkey, mint: &Pubkey, token_program_id: &Pubkey) -> (r:
    Option<Pubkey>)
    ensures
        r matches Some(address) ==> address@ == associated_token_address(
            *wallet,
            *mint,
            *token_program_id,
        ).0,
{
    match get_associated_token_address_and_bump(wallet, mint, token_program_id) {
        Some((address, _)) => Some(address),
        None => None,
    }
}

/// What checking an account against a derivation yields: the bump when the
/// host derived the account's own address, a seed error otherwise.
pub open spec fn check_derived_spec(key: Pubkey, derived: Option<(Pubkey, u8)>) -> Result<
    u8,
    ProgramError,
> {
    match derived {
        Some((address, bump)) => if key == address {
            Ok(bump)
        } else {
            Err(ProgramError::InvalidSeeds)
        },
        None => Err(ProgramError::InvalidSeeds),
    }
}

/// Holds an account against what the host derived.
pub fn check_derived(account: &AccountInfo, derived: Option<(Pubkey, u8)>) -> (r: Result<
    u8,
    ProgramError,
>)
    ensures
        r == check_derived_spec(account.key, derived),
{
    match derived {
        Some((address, bump)) => {
            if pubkey_eq(account.key(), &address) {
                Ok(bump)
            } else {
                Err(ProgramError::InvalidSeeds)
            }
        },
        None => Err(ProgramError::InvalidSeeds),
    }
}

/// Confirms that `account` sits at the address derived from `seeds` for
/// `program_id`, and returns the canonical bump. Whatever the host derives,
/// the result is the one `check_derived` gives on it.
pub fn verify_pda(account: &AccountInfo, seeds: &[&[u8]], program_id: &Pubkey) -> (r: Result<
    u8,
    ProgramError,
>)
    ensures
        exists|derived: Option<(Pubkey, u8)>|
            {
                &&& derives(derived, seeds_view(seeds), program_id@)
                &&& r == #[trigger] check_derived_spec(account.key, derived)
            },
{
    let derived = find_program_address(seeds, program_id);
    let r = check_derived(account, derived);
    assert(derives(derived, seeds_view(seeds), program_id@) && r == check_derived_spec(
        account.key,
        derived,
    ));
    r
}

/// What checking an account and a stored bump against a derivation yields.
pub open spec fn check_derived_with_bump_spec(
    key: Pubkey,
    bump: u8,
    derived: Option<(Pubkey, u8)>,
) -> ProgramResult {
    match derived {
        Some((address, canonical)) => if key == address && bump == canonical {
            Ok(())
        } else {
            Err(ProgramError::InvalidSeeds)
        },
        None => Err(ProgramError::InvalidSeeds),
    }
}

/// Holds an account and a stored bump against what the host derived.
pub fn check_derived_with_bump(account: &AccountInfo, bump: u8, derived: Option<(Pubkey, u8)>) -> (r:
    ProgramResult)
    ensures
        r == check_derived_with_bump_spec(account.key, bump, derived),
{
    match check_derived(account, derived) {
        Ok(canonical) => {
            if bump == canonical {
                Ok(())
            } else {
                Err(ProgramError::InvalidSeeds)
            }
        },
        Err(e) => Err(e),
    }
}

/// Confirms that `account` sits at the address derived from `seeds` for
/// `program_id` and that `bump` is the canonical one. Whatever the host
/// derives, the result is the one `check_derived_with_bump` gives on it.
pub fn verify_pda_with_bump(account: &AccountInfo, seeds: &[&[u8]], bump: u8, program_id: &Pubkey) -> (r:
    ProgramResult)
    ensures
        exists|derived: Option<(Pubkey, u8)>|
            {
                &&& derives(derived, seeds_view(seeds), program_id@)
                &&& r == #[trigger] check_derived_with_bump_spec(account.key, bump, derived)
            },
{
    let derived = find_program_address(seeds, program_id);
    let r = check_derived_with_bump(account, bump, derived);
    assert(derives(derived, seeds_view(seeds), program_id@) && r == check_derived_with_bump_spec(
        account.key,
        bump,
        derived,
    ));
    r
}

/// Checks on an account that must be an associated token account.
pub struct AssociatedTokenAccount;

impl AssociatedTokenAccount {
    /// The verdict on an account against the address the host derived for
    /// it: the account must belong to the token program the caller supplied,
    /// else an owner error, and sit at the derived address, else a seed error.
    pub open spec fn check_derived_spec(
        account: &AccountInfo,
        token_program: &AccountInfo,
        derived: Option<Pubkey>,
    ) -> ProgramResult {
        if account.owner != token_program.key {
            Err(ProgramError::InvalidAccountOwner)
        } else if derived != Some(account.key) {
            Err(ProgramError::InvalidSeeds)
        } else {
            Ok(())
        }
    }

    /// Holds an account against the address the host derived for it.
    pub fn check_derived(account: &AccountInfo, token_program: &AccountInfo, derived: Option<Pubkey>) -> (r:
        ProgramResult)
        ensures
            r == Self::check_derived_spec(account, token_program, derived),
    {
        if !pubkey_eq(account.owner(), token_program.key()) {
            return Err(ProgramError::InvalidAccountOwner);
        }
        match derived {
            Some(address) => {
                if pubkey_eq(account.key(), &address) {
                    Ok(())
                } else {
                    Err(ProgramError::InvalidSeeds)
                }
            },
            None => Err(ProgramError::InvalidSeeds),
        }
    }

    /// Whether `derived` may be what the host answers for the associated
    /// token address of `owner` and `mint`: nothing, or that address.
    pub open spec fn may_derive(
        derived: Option<Pubkey>,
        owner: Pubkey,
        mint: Pubkey,
        token_program: Pubkey,
    ) -> bool {
        derived matches Some(address) ==> address@ == associated_token_address(
            owner,
            mint,
            token_program,
        ).0
    }

    /// Confirms that `account` is the associated token account of `owner`
    /// for `mint` under `token_program`. Whatever the host derives, the
    /// result is the one `check_derived` gives on it.
    pub fn check(
        account: &AccountInfo,
        owner: &AccountInfo,
        mint: &AccountInfo,
        token_program: &AccountInfo,
    ) -> (r: ProgramResult)
        ensures
            exists|derived: Option<Pubkey>|
                {
                    &&& Self::may_derive(derived, owner.key, mint.key, token_program.key)
                    &&& r == #[trigger] Self::check_derived_spec(account, token_program, derived)
                },
    {
        let derived = get_associated_token_address(owner.key(), mint.key(), token_program.key());
        let r = Self::check_derived(account, token_program, derived);
        assert(Self::may_derive(derived, owner.key, mint.key, token_program.key) && r
            == Self::check_derived_spec(account, token_program, derived));
        r
    }

    /// The verdict of the strict check against the address the host
    /// derived: that of `check_derived`, and then the account's buffer must
    /// name `owner` as holder and `mint` as token.
    pub open spec fn check_strict_spec(
        account: &AccountInfo,
        owner: &AccountInfo,
        mint: &AccountInfo,
        token_program: &AccountInfo,
        derived: Option<Pubkey>,
    ) -> ProgramResult {
        match Self::check_derived_spec(account, token_program, derived) {
            Err(e) => Err(e),
            Ok(_) => TokenAccountInterface::check_owner_and_mint_spec(account, owner.key, mint.key),
        }
    }

    /// As `check`, and the account's buffer must name `owner` as holder and
    /// `mint` as token.
    pub fn check_strict(
        account: &AccountInfo,
        owner: &AccountInfo,
        mint: &AccountInfo,
        token_program: &AccountInfo,
    ) -> (r: ProgramResult)
        ensures
            exists|derived: Option<Pubkey>|
                {
                    &&& Self::may_derive(derived, owner.key, mint.key, token_program.key)
                    &&& r == #[trigger] Self::check_strict_spec(
                        account,
                        owner,
                        mint,
                        token_program,
                        derived,
                    )
                },
    {
        let derived = get_associated_token_address(owner.key(), mint.key(), token_program.key());
        let r = match Self::check_derived(account, token_program, derived) {
            Err(e) => Err(e),
            Ok(_) => TokenAccountInterface::check_owner_and_mint(account, owner.key(), mint.key()),
        };
        assert(Self::may_derive(derived, owner.key, mint.key, token_program.key) && r
            == Self::check_strict_spec(account, owner, mint, token_program, derived));
        r
    }

    /// What creating an associated token account yields against the address
    /// the host derived: the creation leg where `account` sits at that
    /// address, a seed error otherwise.
    pub open spec fn init_derived_spec(
        account: &AccountInfo,
        mint: &AccountInfo,
        payer: &AccountInfo,
        owner: &AccountInfo,
        system_program: &AccountInfo,
        token_program: &AccountInfo,
        idempotent: bool,
        derived: Option<Pubkey>,
    ) -> Result<Settlement, ProgramError> {
        if derived != Some(account.key) {
            Err(ProgramError::InvalidSeeds)
        } else {
            Ok(
                Settlement::CreateAssociatedTokenAccount {
                    payer: payer.key,
                    account: account.key,
                    owner: owner.key,
                    mint: mint.key,
                    system_program: system_program.key,
                    token_program: token_program.key,
                    idempotent,
                },
            )
        }
    }

    /// Decides the creation of an associated token account against the
    /// address the host derived.
    pub fn init_derived(
        account: &AccountInfo,
        mint: &AccountInfo,
        payer: &AccountInfo,
        owner: &AccountInfo,
        system_program: &AccountInfo,
        token_program: &AccountInfo,
        idempotent: bool,
        derived: Option<Pubkey>,
    ) -> (r: Result<Settlement, ProgramError>)
        ensures
            r == Self::init_derived_spec(
                account,
                mint,
                payer,
                owner,
                system_program,
                token_program,
                idempotent,
                derived,
            ),
    {
        let at_address = match derived {
            Some(address) => pubkey_eq(account.key(), &address),
            None => false,
        };
        if !at_address {
            return Err(ProgramError::InvalidSeeds);
        }
        Ok(
            Settlement::CreateAssociatedTokenAccount {
                payer: payer.key,
                account: account.key,
                owner: owner.key,
                mint: mint.key,
                system_program: system_program.key,
                token_program: token_program.key,
                idempotent,
            },
        )
    }

    /// The leg that creates the associated token account of `owner` for
    /// `mint` at `account`. Whatever the host derives, the result is the one
    /// `init_derived` gives on it.
    pub fn init(
        account: &AccountInfo,
        mint: &AccountInfo,
        payer: &AccountInfo,
        owner: &AccountInfo,
        system_program: &AccountInfo,
        token_program: &AccountInfo,
    ) -> (r: Result<Settlement, ProgramError>)
        ensures
            exists|derived: Option<Pubkey>|
                {
                    &&& Self::may_derive(derived, owner.key, mint.key, token_program.key)
                    &&& r == #[trigger] Self::init_derived_spec(
                        account,
                        mint,
                        payer,
                        owner,
                        system_program,
                        token_program,
                        false,
                        derived,
                    )
                },
    {
        let derived = get_associated_token_address(owner.key(), mint.key(), token_program.key());
        let r = Self::init_derived(
            account,
            mint,
            payer,
            owner,
            system_program,
            token_program,
            false,
            derived,
        );
        assert(Self::may_derive(derived, owner.key, mint.key, token_program.key) && r
            == Self::init_derived_spec(
            account,
            mint,
            payer,
            owner,
            system_program,
            token_program,
            false,
            derived,
        ));
        r
    }

    /// As `init`, but an account that has a balance exists already and needs
    /// no leg.
    pub fn init_if_needed(
        account: &AccountInfo,
        mint: &AccountInfo,
        payer: &AccountInfo,
        owner: &AccountInfo,
        system_program: &AccountInfo,
        token_program: &AccountInfo,
    ) -> (r: Result<Option<Settlement>, ProgramError>)
        ensures
            account.lamports > 0 ==> r == Ok::<Option<Settlement>, ProgramError>(None),
            account.lamports == 0 ==> exists|derived: Option<Pubkey>|
                {
                    &&& Self::may_derive(derived, owner.key, mint.key, token_program.key)
                    &&& match #[trigger] Self::init_derived_spec(
                        account,
                        mint,
                        payer,
                        owner,
                        system_program,
                        token_program,
                        false,
                        derived,
                    ) {
                        Ok(leg) => r == Ok::<Option<Settlement>, ProgramError>(Some(leg)),
                        Err(e) => r == Err::<Option<Settlement>, ProgramError>(e),
                    }
                },
    {
        if !Self::needs_init(account) {
            return Ok(None);
        }
        match Self::init(account, mint, payer, owner, system_program, token_program) {
            Ok(leg) => Ok(Some(leg)),
            Err(e) => Err(e),
        }
    }

    /// As `init`, with a leg that does not fail where the account exists
    /// already.
    pub fn init_idempotent(
        account: &AccountInfo,
        mint: &AccountInfo,
        payer: &AccountInfo,
        owner: &AccountInfo,
        system_program: &AccountInfo,
        token_program: &AccountInfo,
    ) -> (r: Result<Settlement, ProgramError>)
        ensures
            exists|derived: Option<Pubkey>|
                {
                    &&& Self::may_derive(derived, owner.key, mint.key, token_program.key)
                    &&& r == #[trigger] Self::init_derived_spec(
                        account,
                        mint,
                        payer,
                        owner,
                        system_program,
                        token_program,
                        true,
                        derived,
                    )
                },
    {
        let derived = get_associated_token_address(owner.key(), mint.key(), token_program.key());
        let r = Self::init_derived(
            account,
            mint,
            payer,
            owner,
            system_program,
            token_program,
            true,
            derived,
        );
        assert(Self::may_derive(derived, owner.key, mint.key, token_program.key) && r
            == Self::init_derived_spec(
            account,
            mint,
            payer,
            owner,
            system_program,
            token_program,
            true,
            derived,
        ));
        r
    }

    /// Whether an associated token account still has to be created: one
    /// with a balance exists already.
    pub fn needs_init(account: &AccountInfo) -> (r: bool)
        ensures
            r == (account.lamports == 0),
    {
        account.lamports() == 0
    }
}

} // verus!
