//! The four pool operations. Each validates its accounts and arguments, asks
//! the curve for amounts, and returns the settlement legs to carry out, in
//! order; it moves no balance itself, so a failure leaves every stored byte
//! as it was.

use vstd::prelude::*;
use crate::curve::ConstantProduct;
use crate::errors::ProgramError;
use crate::helpers::{AccountInfo, MintInterface, ProgramResult, TokenAccount, TokenAccountInterface};
use crate::settlement::Settlement;

pub mod deposit;
pub mod initialize;
pub mod swap;
pub mod withdraw;

verus! {

/// Whether a result is the given failure.
pub open spec fn fails_with<T>(r: Result<T, ProgramError>, e: ProgramError) -> bool {
    match r {
        Err(x) => x == e,
        Ok(_) => false,
    }
}

/// The first failure of two checks run in order.
pub open spec fn then(first: ProgramResult, second: ProgramResult) -> ProgramResult {
    if first is Err {
        first
    } else {
        second
    }
}

/// Whether an operation's result is the one its rule gives: the same error,
/// or the same legs in the same order.
pub open spec fn result_is(
    r: Result<Vec<Settlement>, ProgramError>,
    rule: Result<Seq<Settlement>, ProgramError>,
) -> bool {
    match r {
        Ok(legs) => rule == Ok::<Seq<Settlement>, ProgramError>(legs@),
        Err(e) => rule == Err::<Seq<Settlement>, ProgramError>(e),
    }
}

/// The balance that a token account holds, or why it cannot be read.
pub open spec fn token_amount_spec(account: &AccountInfo) -> Result<u64, ProgramError> {
    match TokenAccountInterface::check_spec(account) {
        Err(e) => Err(e),
        Ok(_) => Ok(TokenAccount::stored_amount(account.data@)),
    }
}

/// The balances a pool trades on, read from its two vaults and its claim
/// mint, or the first reason why one of them cannot be read.
pub open spec fn pool_balances_spec(
    mint_lp: &AccountInfo,
    vault_x: &AccountInfo,
    vault_y: &AccountInfo,
    fee: u16,
) -> Result<ConstantProduct, ProgramError> {
    match MintInterface::get_spec(mint_lp) {
        Err(e) => Err(e),
        Ok(mint) => match token_amount_spec(vault_x) {
            Err(e) => Err(e),
            Ok(x) => match token_amount_spec(vault_y) {
                Err(e) => Err(e),
                Ok(y) => Ok(ConstantProduct { x, y, l: mint.supply, fee }),
            },
        },
    }
}

/// Reads the balances a pool trades on.
pub fn pool_balances(mint_lp: &AccountInfo, vault_x: &AccountInfo, vault_y: &AccountInfo, fee: u16) -> (r:
    Result<ConstantProduct, ProgramError>)
    ensures
        r == pool_balances_spec(mint_lp, vault_x, vault_y, fee),
{
    let mint = MintInterface::get(mint_lp)?;
    let x = TokenAccountInterface::get(vault_x)?;
    let y = TokenAccountInterface::get(vault_y)?;
    Ok(ConstantProduct { x: x.amount, y: y.amount, l: mint.supply, fee })
}

} // verus!
