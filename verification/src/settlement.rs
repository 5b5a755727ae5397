//! Settlement legs: the calls of the token and system programs that an
//! operation decides on. The pool engine only says when each primitive runs,
//! with what amounts and under whose authority; the host carries them out, in
//! order and all or none.

use vstd::prelude::*;
use crate::helpers::AccountInfo;
use crate::pubkey::Pubkey;
use crate::state::ConfigSeeds;

verus! {

/// One call of a settlement primitive. `custody` holds the pool's seed tuple
/// where the leg acts on the pool's behalf, and nothing where the signature
/// of `authority` itself authorizes it.
#[derive(Clone, Copy, Debug, PartialEq, Eq)]
pub enum Settlement {
    /// Moves `amount` tokens between two token accounts.
    Transfer { from: Pubkey, to: Pubkey, authority: Pubkey, amount: u64, custody: Option<ConfigSeeds> },
    /// As `Transfer`, with the mint and its fractional digits stated for the
    /// token program to check.
    TransferChecked {
        from: Pubkey,
        to: Pubkey,
        mint: Pubkey,
        authority: Pubkey,
        amount: u64,
        decimals: u8,
        custody: Option<ConfigSeeds>,
    },
    /// Mints `amount` tokens of `mint` to `account`.
    MintTo {
        mint: Pubkey,
        account: Pubkey,
        mint_authority: Pubkey,
        amount: u64,
        custody: Option<ConfigSeeds>,
    },
    /// Burns `amount` tokens of `mint` held in `account`.
    Burn { account: Pubkey, mint: Pubkey, authority: Pubkey, amount: u64, custody: Option<ConfigSeeds> },
    /// Closes a token account and sends its native balance to `destination`.
    CloseAccount {
        account: Pubkey,
        destination: Pubkey,
        authority: Pubkey,
        custody: Option<ConfigSeeds>,
    },
    /// Moves `lamports` of native balance through the system program.
    SystemTransfer { from: Pubkey, to: Pubkey, lamports: u64, custody: Option<ConfigSeeds> },
    /// Has the associated-token program create `account` for `owner` and
    /// `mint` at `payer`'s cost; with `idempotent`, an account that exists
    /// already is no failure.
    CreateAssociatedTokenAccount {
        payer: Pubkey,
        account: Pubkey,
        owner: Pubkey,
        mint: Pubkey,
        system_program: Pubkey,
        token_program: Pubkey,
        idempotent: bool,
    },
}

/// A native transfer that `from` signs.
pub fn transfer_sol(from: &AccountInfo, to: &AccountInfo, amount: u64) -> (r: Settlement)
    ensures
        r == (Settlement::SystemTransfer {
            from: from.key,
            to: to.key,
            lamports: amount,
            custody: None,
        }),
{
    Settlement::SystemTransfer { from: from.key, to: to.key, lamports: amount, custody: None }
}

/// A native transfer out of an address that `seeds` derive.
pub fn transfer_sol_signed(from: &AccountInfo, to: &AccountInfo, amount: u64, seeds: &ConfigSeeds) -> (r:
    Settlement)
    ensures
        r == (Settlement::SystemTransfer {
            from: from.key,
            to: to.key,
            lamports: amount,
            custody: Some(*seeds),
        }),
{
    Settlement::SystemTransfer { from: from.key, to: to.key, lamports: amount, custody: Some(*seeds) }
}

/// A token transfer that `authority` signs.
pub fn transfer_tokens(from: &AccountInfo, to: &AccountInfo, authority: &AccountInfo, amount: u64) -> (r:
    Settlement)
    ensures
        r == (Settlement::Transfer {
            from: from.key,
            to: to.key,
            authority: authority.key,
            amount,
            custody: None,
        }),
{
    Settlement::Transfer { from: from.key, to: to.key, authority: authority.key, amount, custody: None }
}

/// A token transfer under an authority that `seeds` derive.
pub fn transfer_tokens_signed(
    from: &AccountInfo,
    to: &AccountInfo,
    authority: &AccountInfo,
    amount: u64,
    seeds: &ConfigSeeds,
) -> (r: Settlement)
    ensures
        r == (Settlement::Transfer {
            from: from.key,
            to: to.key,
            authority: authority.key,
            amount,
            custody: Some(*seeds),
        }),
{
    Settlement::Transfer {
        from: from.key,
        to: to.key,
        authority: authority.key,
        amount,
        custody: Some(*seeds),
    }
}

/// A checked token transfer that `authority` signs.
pub fn transfer_tokens_checked(
    from: &AccountInfo,
    to: &AccountInfo,
    mint: &AccountInfo,
    authority: &AccountInfo,
    amount: u64,
    decimals: u8,
) -> (r: Settlement)
    ensures
        r == (Settlement::TransferChecked {
            from: from.key,
            to: to.key,
            mint: mint.key,
            authority: authority.key,
            amount,
            decimals,
            custody: None,
        }),
{
    Settlement::TransferChecked {
        from: from.key,
        to: to.key,
        mint: mint.key,
        authority: authority.key,
        amount,
        decimals,
        custody: None,
    }
}

/// A checked token transfer under an authority that `seeds` derive.
pub fn transfer_tokens_checked_signed(
    from: &AccountInfo,
    to: &AccountInfo,
    mint: &AccountInfo,
    authority: &AccountInfo,
    amount: u64,
    decimals: u8,
    seeds: &ConfigSeeds,
) -> (r: Settlement)
    ensures
        r == (Settlement::TransferChecked {
            from: from.key,
            to: to.key,
            mint: mint.key,
            authority: authority.key,
            amount,
            decimals,
            custody: Some(*seeds),
        }),
{
    Settlement::TransferChecked {
        from: from.key,
        to: to.key,
        mint: mint.key,
        authority: authority.key,
        amount,
        decimals,
        custody: Some(*seeds),
    }
}

/// A mint of `amount` tokens that `authority` signs.
pub fn mint_tokens(mint: &AccountInfo, to: &AccountInfo, authority: &AccountInfo, amount: u64) -> (r:
    Settlement)
    ensures
        r == (Settlement::MintTo {
            mint: mint.key,
            account: to.key,
            mint_authority: authority.key,
            amount,
            custody: None,
        }),
{
    Settlement::MintTo {
        mint: mint.key,
        account: to.key,
        mint_authority: authority.key,
        amount,
        custody: None,
    }
}

/// A mint of `amount` tokens under an authority that `seeds` derive.
pub fn mint_tokens_signed(
    mint: &AccountInfo,
    to: &AccountInfo,
    authority: &AccountInfo,
    amount: u64,
    seeds: &ConfigSeeds,
) -> (r: Settlement)
    ensures
        r == (Settlement::MintTo {
            mint: mint.key,
            account: to.key,
            mint_authority: authority.key,
            amount,
            custody: Some(*seeds),
        }),
{
    Settlement::MintTo {
        mint: mint.key,
        account: to.key,
        mint_authority: authority.key,
        amount,
        custody: Some(*seeds),
    }
}

/// A burn of `amount` tokens that `authority` signs.
pub fn burn_tokens(from: &AccountInfo, mint: &AccountInfo, authority: &AccountInfo, amount: u64) -> (r:
    Settlement)
    ensures
        r == (Settlement::Burn {
            account: from.key,
            mint: mint.key,
            authority: authority.key,
            amount,
            custody: None,
        }),
{
    Settlement::Burn {
        account: from.key,
        mint: mint.key,
        authority: authority.key,
        amount,
        custody: None,
    }
}

/// A burn of `amount` tokens under an authority that `seeds` derive.
pub fn burn_tokens_signed(
    from: &AccountInfo,
    mint: &AccountInfo,
    authority: &AccountInfo,
    amount: u64,
    seeds: &ConfigSeeds,
) -> (r: Settlement)
    ensures
        r == (Settlement::Burn {
            account: from.key,
            mint: mint.key,
            authority: authority.key,
            amount,
            custody: Some(*seeds),
        }),
{
    Settlement::Burn {
        account: from.key,
        mint: mint.key,
        authority: authority.key,
        amount,
        custody: Some(*seeds),
    }
}

/// The closing of a token account that `authority` signs.
pub fn close_token_account(
    token_account: &AccountInfo,
    destination: &AccountInfo,
    authority: &AccountInfo,
) -> (r: Settlement)
    ensures
        r == (Settlement::CloseAccount {
            account: token_account.key,
            destination: destination.key,
            authority: authority.key,
            custody: None,
        }),
{
    Settlement::CloseAccount {
        account: token_account.key,
        destination: destination.key,
        authority: authority.key,
        custody: None,
    }
}

/// The closing of a token account under an authority that `seeds` derive.
pub fn close_token_account_signed(
    token_account: &AccountInfo,
    destination: &AccountInfo,
    authority: &AccountInfo,
    seeds: &ConfigSeeds,
) -> (r: Settlement)
    ensures
        r == (Settlement::CloseAccount {
            account: token_account.key,
            destination: destination.key,
            authority: authority.key,
            custody: Some(*seeds),
        }),
{
    Settlement::CloseAccount {
        account: token_account.key,
        destination: destination.key,
        authority: authority.key,
        custody: Some(*seeds),
    }
}

} // verus!
