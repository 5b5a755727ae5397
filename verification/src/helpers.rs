//! Accounts as the pool sees them, and the checks it runs on them before any
//! balance moves.

use vstd::prelude::*;
use crate::codec::{le_u64, read_pubkey, read_u64};
use crate::errors::ProgramError;
use crate::programs::{ID, SPL_TOKEN_2022_ID, SYSTEM_PROGRAM_ID, TOKEN_PROGRAM_ID};
use crate::pubkey::{Pubkey, pubkey_eq};

verus! {

/// The result of a check that yields nothing but its verdict.
pub type ProgramResult = Result<(), ProgramError>;

/// One account of the host ledger: its address, the program that owns it, its
/// native balance, its byte buffer, and how the caller presented it.
#[derive(Clone, Debug, PartialEq, Eq)]
pub struct AccountInfo {
    pub key: Pubkey,
    pub owner: Pubkey,
    pub lamports: u64,
    pub data: Vec<u8>,
    pub is_signer: bool,
    pub is_writable: bool,
}

impl AccountInfo {
    /// The account's address.
    pub fn key(&self) -> (r: &Pubkey)
        ensures
            *r == self.key,
    {
        &self.key
    }

    /// The program that owns the account.
    pub fn owner(&self) -> (r: &Pubkey)
        ensures
            *r == self.owner,
    {
        &self.owner
    }

    /// Whether `program` owns the account.
    pub fn is_owned_by(&self, program: &Pubkey) -> (r: bool)
        ensures
            r == (self.owner == *program),
    {
        pubkey_eq(&self.owner, program)
    }

    /// The account's native balance.
    pub fn lamports(&self) -> (r: u64)
        ensures
            r == self.lamports,
    {
        self.lamports
    }

    /// The length of the account's buffer.
    pub fn data_len(&self) -> (r: usize)
        ensures
            r == self.data@.len(),
    {
        self.data.len()
    }

    /// Whether the account signed the instruction.
    pub fn is_signer(&self) -> (r: bool)
        ensures
            r == self.is_signer,
    {
        self.is_signer
    }

    /// Whether the instruction may write to the account.
    pub fn is_writable(&self) -> (r: bool)
        ensures
            r == self.is_writable,
    {
        self.is_writable
    }
}

/// `Ok` when `failed` is false, the given error when it is true.
pub open spec fn fail_if(failed: bool, e: ProgramError) -> ProgramResult {
    if failed {
        Err(e)
    } else {
        Ok(())
    }
}

/// Whether a program-owned account is in use or has been closed for good.
#[derive(Clone, Copy, Debug, PartialEq, Eq, Structural)]
pub enum Lifecycle {
    Open,
    Closed,
}

/// Checks on an account that must have signed.
pub struct SignerAccount;

impl SignerAccount {
    /// The account must have signed.
    pub fn check(account: &AccountInfo) -> (r: ProgramResult)
        ensures
            r == fail_if(!account.is_signer, ProgramError::MissingRequiredSignature),
    {
        if !account.is_signer() {
            return Err(ProgramError::MissingRequiredSignature);
        }
        Ok(())
    }

    /// The verdict of `check_writable`: a missing signature comes first.
    pub open spec fn check_writable_spec(account: &AccountInfo) -> ProgramResult {
        if !account.is_signer {
            Err(ProgramError::MissingRequiredSignature)
        } else if !account.is_writable {
            Err(ProgramError::InvalidAccountData)
        } else {
            Ok(())
        }
    }

    /// The account must have signed and be writable.
    pub fn check_writable(account: &AccountInfo) -> (r: ProgramResult)
        ensures
            r == Self::check_writable_spec(account),
    {
        Self::check(account)?;
        if !account.is_writable() {
            return Err(ProgramError::InvalidAccountData);
        }
        Ok(())
    }
}

/// Checks on an account of the system program.
pub struct SystemAccount;

impl SystemAccount {
    /// The system program must own the account.
    pub fn check(account: &AccountInfo) -> (r: ProgramResult)
        ensures
            r == fail_if(account.owner != SYSTEM_PROGRAM_ID, ProgramError::InvalidAccountOwner),
    {
        if !account.is_owned_by(&SYSTEM_PROGRAM_ID) {
            return Err(ProgramError::InvalidAccountOwner);
        }
        Ok(())
    }

    /// The account must be the system program itself.
    pub fn check_program(account: &AccountInfo) -> (r: ProgramResult)
        ensures
            r == fail_if(account.key != SYSTEM_PROGRAM_ID, ProgramError::IncorrectProgramId),
    {
        if !pubkey_eq(account.key(), &SYSTEM_PROGRAM_ID) {
            return Err(ProgramError::IncorrectProgramId);
        }
        Ok(())
    }
}

/// The creation of one account, for the host to carry out with the balance
/// that exempts `space` bytes from rent: who pays, at which address, how many
/// bytes, and for which program.
#[derive(Clone, Copy, Debug, PartialEq, Eq)]
pub struct CreateAccountPlan {
    pub payer: Pubkey,
    pub account: Pubkey,
    pub space: usize,
    pub owner: Pubkey,
}

/// The creation of one token mint: its account, its fractional digits and
/// who may mint.
#[derive(Clone, Copy, Debug, PartialEq, Eq)]
pub struct CreateMintPlan {
    pub account: CreateAccountPlan,
    pub decimals: u8,
    pub mint_authority: Pubkey,
}

/// Checks and bookkeeping on accounts that the pool program owns.
pub struct ProgramAccount;

impl ProgramAccount {
    /// The first byte of an account that was closed and must not be reused.
    pub const CLOSED_ACCOUNT_DISCRIMINATOR: u8 = 255;

    /// Plans an account of `space` bytes at `account` for the pool program.
    pub fn init(payer: &AccountInfo, account: &AccountInfo, space: usize) -> (r: CreateAccountPlan)
        ensures
            r == (CreateAccountPlan { payer: payer.key, account: account.key, space, owner: ID }),
    {
        Self::init_with_owner(payer, account, space, &ID)
    }

    /// Plans an account of `space` bytes at `account` for `owner`.
    pub fn init_with_owner(payer: &AccountInfo, account: &AccountInfo, space: usize, owner: &Pubkey) -> (r:
        CreateAccountPlan)
        ensures
            r == (CreateAccountPlan {
                payer: payer.key,
                account: account.key,
                space,
                owner: *owner,
            }),
    {
        CreateAccountPlan { payer: payer.key, account: account.key, space, owner: *owner }
    }

    /// The pool program must own the account.
    pub fn check(account: &AccountInfo) -> (r: ProgramResult)
        ensures
            r == fail_if(account.owner != ID, ProgramError::InvalidAccountOwner),
    {
        if !account.is_owned_by(&ID) {
            return Err(ProgramError::InvalidAccountOwner);
        }
        Ok(())
    }

    /// The verdict of `check_writable`: a foreign owner comes first.
    pub open spec fn check_writable_spec(account: &AccountInfo) -> ProgramResult {
        if account.owner != ID {
            Err(ProgramError::InvalidAccountOwner)
        } else if !account.is_writable {
            Err(ProgramError::InvalidAccountData)
        } else {
            Ok(())
        }
    }

    /// The pool program must own the account, and it must be writable.
    pub fn check_writable(account: &AccountInfo) -> (r: ProgramResult)
        ensures
            r == Self::check_writable_spec(account),
    {
        Self::check(account)?;
        if !account.is_writable() {
            return Err(ProgramError::InvalidAccountData);
        }
        Ok(())
    }

    /// The given program must own the account.
    pub fn check_owner(account: &AccountInfo, owner: &Pubkey) -> (r: ProgramResult)
        ensures
            r == fail_if(account.owner != *owner, ProgramError::InvalidAccountOwner),
    {
        if !account.is_owned_by(owner) {
            return Err(ProgramError::InvalidAccountOwner);
        }
        Ok(())
    }

    /// The account's buffer must have the given length.
    pub fn check_data_len(account: &AccountInfo, expected_len: usize) -> (r: ProgramResult)
        ensures
            r == fail_if(account.data@.len() != expected_len, ProgramError::InvalidAccountData),
    {
        if account.data_len() != expected_len {
            return Err(ProgramError::InvalidAccountData);
        }
        Ok(())
    }

    /// Fresh storage has neither balance nor bytes.
    pub fn check_uninitialized(account: &AccountInfo) -> (r: ProgramResult)
        ensures
            r == fail_if(
                account.lamports != 0 || account.data@.len() != 0,
                ProgramError::AccountAlreadyInitialized,
            ),
    {
        if account.lamports() != 0 || account.data_len() != 0 {
            return Err(ProgramError::AccountAlreadyInitialized);
        }
        Ok(())
    }

    /// Storage in use has a balance.
    pub fn check_initialized(account: &AccountInfo) -> (r: ProgramResult)
        ensures
            r == fail_if(account.lamports == 0, ProgramError::UninitializedAccount),
    {
        if account.lamports() == 0 {
            return Err(ProgramError::UninitializedAccount);
        }
        Ok(())
    }

    /// An account is closed when its buffer opens with the closing mark.
    pub open spec fn lifecycle_spec(account: &AccountInfo) -> Lifecycle {
        if account.data@.len() > 0 && account.data@[0] == Self::CLOSED_ACCOUNT_DISCRIMINATOR {
            Lifecycle::Closed
        } else {
            Lifecycle::Open
        }
    }

    /// Whether the account is open or was closed for good.
    pub fn lifecycle(account: &AccountInfo) -> (r: Lifecycle)
        ensures
            r == Self::lifecycle_spec(account),
    {
        if account.data.len() > 0 && account.data[0] == Self::CLOSED_ACCOUNT_DISCRIMINATOR {
            Lifecycle::Closed
        } else {
            Lifecycle::Open
        }
    }

    /// The account must not have been closed.
    pub fn check_not_closed(account: &AccountInfo) -> (r: ProgramResult)
        ensures
            r == fail_if(
                Self::lifecycle_spec(account) == Lifecycle::Closed,
                ProgramError::InvalidAccountData,
            ),
    {
        match Self::lifecycle(account) {
            Lifecycle::Closed => Err(ProgramError::InvalidAccountData),
            Lifecycle::Open => Ok(()),
        }
    }

    /// The buffer of a closed account: the closing mark, then zeros.
    pub open spec fn closed_data(len: nat) -> Seq<u8> {
        Seq::new(
            len,
            |i: int|
                if i == 0 {
                    Self::CLOSED_ACCOUNT_DISCRIMINATOR
                } else {
                    0u8
                },
        )
    }

    /// Closes `account`: its whole balance goes to `destination`, its buffer
    /// keeps its length and is wiped behind the closing mark. When the sum
    /// does not fit, nothing changes.
    pub fn close(account: &mut AccountInfo, destination: &mut AccountInfo) -> (r: ProgramResult)
        ensures
            r == fail_if(
                old(destination).lamports + old(account).lamports > u64::MAX,
                ProgramError::ArithmeticOverflow,
            ),
            r is Err ==> *final(account) == *old(account) && *final(destination) == *old(
                destination,
            ),
            r is Ok ==> {
                &&& final(destination).lamports == old(destination).lamports + old(account).lamports
                &&& final(account).lamports == 0
                &&& final(account).data@ == Self::closed_data(old(account).data@.len())
                &&& final(account).key == old(account).key
                &&& final(account).owner == old(account).owner
                &&& final(account).is_signer == old(account).is_signer
                &&& final(account).is_writable == old(account).is_writable
                &&& final(destination).key == old(destination).key
                &&& final(destination).owner == old(destination).owner
                &&& final(destination).data == old(destination).data
                &&& final(destination).is_signer == old(destination).is_signer
                &&& final(destination).is_writable == old(destination).is_writable
            },
    {
        let total = match destination.lamports.checked_add(account.lamports) {
            Some(t) => t,
            None => {
                return Err(ProgramError::ArithmeticOverflow);
            },
        };
        destination.lamports = total;
        account.lamports = 0;
        let len = account.data.len();
        let mut i: usize = 0;
        while i < len
            invariant
                i <= len,
                account.data@.len() == len,
                account.lamports == 0,
                account.key == old(account).key,
                account.owner == old(account).owner,
                account.is_signer == old(account).is_signer,
                account.is_writable == old(account).is_writable,
                forall|j: int| 0 <= j < i ==> account.data@[j] == Self::closed_data(len as nat)[j],
            decreases len - i,
        {
            let byte: u8 = if i == 0 {
                Self::CLOSED_ACCOUNT_DISCRIMINATOR
            } else {
                0
            };
            account.data.set(i, byte);
            i += 1;
        }
        assert(account.data@ =~= Self::closed_data(len as nat));
        Ok(())
    }

    /// What a resize to `new_size` costs the payer: the shortfall of the
    /// account's balance against `new_minimum_balance`.
    pub open spec fn realloc_top_up(account: &AccountInfo, new_minimum_balance: u64) -> nat {
        if new_minimum_balance > account.lamports {
            (new_minimum_balance - account.lamports) as nat
        } else {
            0
        }
    }

    /// Resizes the buffer of `account` to `new_size`, zero-filling what is
    /// new, after `payer` has topped its balance up to `new_minimum_balance`.
    /// When the payer cannot cover the shortfall, nothing changes.
    pub fn realloc(
        account: &mut AccountInfo,
        payer: &mut AccountInfo,
        new_size: usize,
        new_minimum_balance: u64,
    ) -> (r: ProgramResult)
        ensures
            r == fail_if(
                Self::realloc_top_up(old(account), new_minimum_balance) > old(payer).lamports,
                ProgramError::InsufficientFunds,
            ),
            r is Err ==> *final(account) == *old(account) && *final(payer) == *old(payer),
            r is Ok ==> {
                &&& final(payer).lamports == old(payer).lamports - Self::realloc_top_up(
                    old(account),
                    new_minimum_balance,
                )
                &&& final(account).lamports == old(account).lamports + Self::realloc_top_up(
                    old(account),
                    new_minimum_balance,
                )
                &&& final(account).data@.len() == new_size
                &&& forall|i: int|
                    0 <= i < new_size ==> final(account).data@[i] == if i < old(account).data@.len() {
                        old(account).data@[i]
                    } else {
                        0u8
                    }
                &&& final(account).key == old(account).key
                &&& final(account).owner == old(account).owner
                &&& final(account).is_signer == old(account).is_signer
                &&& final(account).is_writable == old(account).is_writable
                &&& final(payer).key == old(payer).key
                &&& final(payer).owner == old(payer).owner
                &&& final(payer).data == old(payer).data
                &&& final(payer).is_signer == old(payer).is_signer
                &&& final(payer).is_writable == old(payer).is_writable
            },
    {
        if new_minimum_balance > account.lamports {
            let diff = new_minimum_balance - account.lamports;
            if diff > payer.lamports {
                return Err(ProgramError::InsufficientFunds);
            }
            payer.lamports = payer.lamports - diff;
            account.lamports = new_minimum_balance;
        }
        account.data.truncate(new_size);
        while account.data.len() < new_size
            invariant
                account.data@.len() <= new_size,
                account.data@.len() >= old(account).data@.len() || account.data@.len() == new_size,
                account.lamports == old(account).lamports + Self::realloc_top_up(
                    old(account),
                    new_minimum_balance,
                ),
                account.key == old(account).key,
                account.owner == old(account).owner,
                account.is_signer == old(account).is_signer,
                account.is_writable == old(account).is_writable,
                forall|i: int|
                    0 <= i < account.data@.len() ==> account.data@[i] == if i < old(
                        account,
                    ).data@.len() {
                        old(account).data@[i]
                    } else {
                        0u8
                    },
            decreases new_size - account.data@.len(),
        {
            account.data.push(0);
        }
        Ok(())
    }
}

/// Moves `amount` of native balance between two accounts that the pool program
/// owns. When the source is short or the target would overflow, nothing changes.
pub open spec fn transfer_lamports_spec(from: &AccountInfo, to: &AccountInfo, amount: u64) -> ProgramResult {
    if from.lamports < amount {
        Err(ProgramError::InsufficientFunds)
    } else if to.lamports + amount > u64::MAX {
        Err(ProgramError::ArithmeticOverflow)
    } else {
        Ok(())
    }
}

/// Moves `amount` of native balance from `from` to `to` without a call to the
/// system program.
pub fn transfer_lamports_unchecked(from: &mut AccountInfo, to: &mut AccountInfo, amount: u64) -> (r:
    ProgramResult)
    ensures
        r == transfer_lamports_spec(old(from), old(to), amount),
        r is Err ==> *final(from) == *old(from) && *final(to) == *old(to),
        r is Ok ==> {
            &&& final(from).lamports == old(from).lamports - amount
            &&& final(to).lamports == old(to).lamports + amount
            &&& final(from).key == old(from).key
            &&& final(from).owner == old(from).owner
            &&& final(from).data == old(from).data
            &&& final(from).is_signer == old(from).is_signer
            &&& final(from).is_writable == old(from).is_writable
            &&& final(to).key == old(to).key
            &&& final(to).owner == old(to).owner
            &&& final(to).data == old(to).data
            &&& final(to).is_signer == old(to).is_signer
            &&& final(to).is_writable == old(to).is_writable
        },
{
    if from.lamports < amount {
        return Err(ProgramError::InsufficientFunds);
    }
    let credited = match to.lamports.checked_add(amount) {
        Some(v) => v,
        None => {
            return Err(ProgramError::ArithmeticOverflow);
        },
    };
    from.lamports = from.lamports - amount;
    to.lamports = credited;
    Ok(())
}

/// What the pool reads of a token mint.
#[derive(Clone, Copy, Debug, PartialEq, Eq, Structural)]
pub struct Mint {
    pub supply: u64,
    pub decimals: u8,
    pub is_initialized: bool,
}

impl Mint {
    /// The size of a mint's buffer under the token program.
    pub const LEN: usize = 82;

    /// The mint that a buffer stores: the supply at offset 36, the decimals at
    /// 44 and the in-use flag at 45.
    pub open spec fn decode(data: Seq<u8>) -> Mint
        recommends
            data.len() >= Self::LEN,
    {
        Mint {
            supply: le_u64(data.subrange(36, 44)) as u64,
            decimals: data[44],
            is_initialized: data[45] == 1,
        }
    }

    /// Reads a mint from a buffer that is long enough.
    pub fn unpack(data: &[u8]) -> (r: Result<Mint, ProgramError>)
        ensures
            r == if data@.len() < Self::LEN {
                Err::<Mint, ProgramError>(ProgramError::InvalidAccountData)
            } else {
                Ok(Self::decode(data@))
            },
    {
        if data.len() < Self::LEN {
            return Err(ProgramError::InvalidAccountData);
        }
        Ok(Mint { supply: read_u64(data, 36), decimals: data[44], is_initialized: data[45] == 1 })
    }
}

/// What the pool reads of a token account.
#[derive(Clone, Copy, Debug, PartialEq, Eq)]
pub struct TokenAccount {
    pub mint: Pubkey,
    pub owner: Pubkey,
    pub amount: u64,
}

impl TokenAccount {
    /// The size of a token account's buffer under the token program.
    pub const LEN: usize = 165;

    /// Whether the fields are the ones a buffer stores: the mint at offset 0,
    /// the holder at 32 and the balance at 64.
    pub open spec fn decodes(&self, data: Seq<u8>) -> bool {
        &&& data.len() >= Self::LEN
        &&& self.mint@ == data.subrange(0, 32)
        &&& self.owner@ == data.subrange(32, 64)
        &&& self.amount == le_u64(data.subrange(64, 72))
    }

    /// Reads a token account from a buffer that is long enough.
    pub fn unpack(data: &[u8]) -> (r: Result<TokenAccount, ProgramError>)
        ensures
            match r {
                Ok(t) => t.decodes(data@),
                Err(e) => data@.len() < Self::LEN && e == ProgramError::InvalidAccountData,
            },
    {
        if data.len() < Self::LEN {
            return Err(ProgramError::InvalidAccountData);
        }
        Ok(
            TokenAccount {
                mint: read_pubkey(data, 0),
                owner: read_pubkey(data, 32),
                amount: read_u64(data, 64),
            },
        )
    }

    /// The holder stored in a buffer is `key`.
    pub open spec fn stored_owner_is(data: Seq<u8>, key: Pubkey) -> bool {
        data.subrange(32, 64) == key@
    }

    /// The mint stored in a buffer is `key`.
    pub open spec fn stored_mint_is(data: Seq<u8>, key: Pubkey) -> bool {
        data.subrange(0, 32) == key@
    }

    /// The balance stored in a buffer.
    pub open spec fn stored_amount(data: Seq<u8>) -> u64 {
        le_u64(data.subrange(64, 72)) as u64
    }

    /// Two addresses are the same exactly when their bytes are.
    pub proof fn lemma_key_bytes(a: Pubkey, b: Pubkey)
        ensures
            (a == b) <==> (a@ == b@),
    {
        if a@ == b@ {
            assert(a =~= b);
        }
    }
}

/// Why an account owned by `owner` with `len` bytes is no valid buffer of
/// `exact` bytes under the token program, or of at least as many under its
/// extended sibling.
pub open spec fn token_layout_check(owner: Pubkey, len: nat, exact: nat) -> ProgramResult {
    if owner == TOKEN_PROGRAM_ID {
        fail_if(len != exact, ProgramError::InvalidAccountData)
    } else if owner == SPL_TOKEN_2022_ID {
        fail_if(len < exact, ProgramError::InvalidAccountData)
    } else {
        Err(ProgramError::InvalidAccountOwner)
    }
}

/// As `token_layout_check`, for an account that must belong to the token
/// program that the caller supplied.
pub open spec fn token_layout_check_with_program(
    owner: Pubkey,
    len: nat,
    exact: nat,
    token_program: Pubkey,
) -> ProgramResult {
    if owner != token_program {
        Err(ProgramError::InvalidAccountOwner)
    } else if token_program == TOKEN_PROGRAM_ID {
        fail_if(len != exact, ProgramError::InvalidAccountData)
    } else if token_program == SPL_TOKEN_2022_ID {
        fail_if(len < exact, ProgramError::InvalidAccountData)
    } else {
        Err(ProgramError::IncorrectProgramId)
    }
}

fn layout_check(account: &AccountInfo, exact: usize) -> (r: ProgramResult)
    ensures
        r == token_layout_check(account.owner, account.data@.len(), exact as nat),
{
    let data_len = account.data_len();
    if account.is_owned_by(&TOKEN_PROGRAM_ID) {
        if data_len != exact {
            return Err(ProgramError::InvalidAccountData);
        }
    } else if account.is_owned_by(&SPL_TOKEN_2022_ID) {
        if data_len < exact {
            return Err(ProgramError::InvalidAccountData);
        }
    } else {
        return Err(ProgramError::InvalidAccountOwner);
    }
    Ok(())
}

fn layout_check_with_program(account: &AccountInfo, token_program: &AccountInfo, exact: usize) -> (r:
    ProgramResult)
    ensures
        r == token_layout_check_with_program(
            account.owner,
            account.data@.len(),
            exact as nat,
            token_program.key,
        ),
{
    if !pubkey_eq(account.owner(), token_program.key()) {
        return Err(ProgramError::InvalidAccountOwner);
    }
    let data_len = account.data_len();
    if pubkey_eq(token_program.key(), &TOKEN_PROGRAM_ID) {
        if data_len != exact {
            return Err(ProgramError::InvalidAccountData);
        }
    } else if pubkey_eq(token_program.key(), &SPL_TOKEN_2022_ID) {
        if data_len < exact {
            return Err(ProgramError::InvalidAccountData);
        }
    } else {
        return Err(ProgramError::IncorrectProgramId);
    }
    Ok(())
}

/// Checks on an account that must be a token mint.
pub struct MintInterface;

impl MintInterface {
    /// Plans a mint at `account` under `token_program`, with `num_decimals`
    /// fractional digits and `mint_authority` as the one who may mint.
    pub fn init(
        payer: &AccountInfo,
        account: &AccountInfo,
        num_decimals: u8,
        mint_authority: &Pubkey,
        token_program: &Pubkey,
    ) -> (r: CreateMintPlan)
        ensures
            r == (CreateMintPlan {
                account: CreateAccountPlan {
                    payer: payer.key,
                    account: account.key,
                    space: Mint::LEN,
                    owner: *token_program,
                },
                decimals: num_decimals,
                mint_authority: *mint_authority,
            }),
    {
        CreateMintPlan {
            account: ProgramAccount::init_with_owner(payer, account, Mint::LEN, token_program),
            decimals: num_decimals,
            mint_authority: *mint_authority,
        }
    }

    /// A mint belongs to one of the two token programs and has a mint's
    /// length: exactly under the token program, at least under its sibling.
    pub fn check(account: &AccountInfo) -> (r: ProgramResult)
        ensures
            r == token_layout_check(account.owner, account.data@.len(), Mint::LEN as nat),
    {
        layout_check(account, Mint::LEN)
    }

    /// As `check`, for a mint that must belong to the token program that the
    /// caller supplied: a foreign owner comes first, then the length, and an
    /// account that is no token program is refused.
    pub fn check_with_program(account: &AccountInfo, token_program: &AccountInfo) -> (r: ProgramResult)
        ensures
            r == token_layout_check_with_program(
                account.owner,
                account.data@.len(),
                Mint::LEN as nat,
                token_program.key,
            ),
    {
        layout_check_with_program(account, token_program, Mint::LEN)
    }

    /// The mint that a checked account holds.
    pub open spec fn get_spec(account: &AccountInfo) -> Result<Mint, ProgramError> {
        match token_layout_check(account.owner, account.data@.len(), Mint::LEN as nat) {
            Err(e) => Err(e),
            Ok(_) => Ok(Mint::decode(account.data@)),
        }
    }

    /// Reads the mint that the account holds, after `check`.
    pub fn get(account: &AccountInfo) -> (r: Result<Mint, ProgramError>)
        ensures
            r == Self::get_spec(account),
    {
        Self::check(account)?;
        Mint::unpack(account.data.as_slice())
    }

    /// The verdict of `check_initialized`.
    pub open spec fn check_initialized_spec(account: &AccountInfo) -> ProgramResult {
        match Self::get_spec(account) {
            Err(e) => Err(e),
            Ok(m) => fail_if(!m.is_initialized, ProgramError::UninitializedAccount),
        }
    }

    /// The account must hold a mint that is in use.
    pub fn check_initialized(account: &AccountInfo) -> (r: ProgramResult)
        ensures
            r == Self::check_initialized_spec(account),
    {
        let mint = Self::get(account)?;
        if !mint.is_initialized {
            return Err(ProgramError::UninitializedAccount);
        }
        Ok(())
    }

    /// Whether the extended token program owns the mint.
    pub fn is_token_2022(account: &AccountInfo) -> (r: bool)
        ensures
            r == (account.owner == SPL_TOKEN_2022_ID),
    {
        account.is_owned_by(&SPL_TOKEN_2022_ID)
    }
}

/// Checks on an account that must be a token account.
pub struct TokenAccountInterface;

impl TokenAccountInterface {
    /// The verdict of `check`.
    pub open spec fn check_spec(account: &AccountInfo) -> ProgramResult {
        token_layout_check(account.owner, account.data@.len(), TokenAccount::LEN as nat)
    }

    /// A token account belongs to one of the two token programs and has a
    /// token account's length: exactly under the token program, at least
    /// under its sibling.
    pub fn check(account: &AccountInfo) -> (r: ProgramResult)
        ensures
            r == Self::check_spec(account),
    {
        layout_check(account, TokenAccount::LEN)
    }

    /// As `check`, for a token account that must belong to the token program
    /// that the caller supplied.
    pub fn check_with_program(account: &AccountInfo, token_program: &AccountInfo) -> (r: ProgramResult)
        ensures
            r == token_layout_check_with_program(
                account.owner,
                account.data@.len(),
                TokenAccount::LEN as nat,
                token_program.key,
            ),
    {
        layout_check_with_program(account, token_program, TokenAccount::LEN)
    }

    /// The token account that a checked account holds.
    pub fn get(account: &AccountInfo) -> (r: Result<TokenAccount, ProgramError>)
        ensures
            match r {
                Ok(t) => Self::check_spec(account) is Ok && t.decodes(account.data@),
                Err(e) => Self::check_spec(account) == Err::<(), ProgramError>(e),
            },
    {
        Self::check(account)?;
        TokenAccount::unpack(account.data.as_slice())
    }

    /// The verdict of `check_owner`.
    pub open spec fn check_owner_spec(account: &AccountInfo, expected_owner: Pubkey) -> ProgramResult {
        match Self::check_spec(account) {
            Err(e) => Err(e),
            Ok(_) => fail_if(
                !TokenAccount::stored_owner_is(account.data@, expected_owner),
                ProgramError::InvalidAccountOwner,
            ),
        }
    }

    /// The account must be a token account held by `expected_owner`.
    pub fn check_owner(account: &AccountInfo, expected_owner: &Pubkey) -> (r: ProgramResult)
        ensures
            r == Self::check_owner_spec(account, *expected_owner),
    {
        let token_account = Self::get(account)?;
        proof {
            TokenAccount::lemma_key_bytes(token_account.owner, *expected_owner);
        }
        if !pubkey_eq(&token_account.owner, expected_owner) {
            return Err(ProgramError::InvalidAccountOwner);
        }
        Ok(())
    }

    /// The verdict of `check_mint`.
    pub open spec fn check_mint_spec(account: &AccountInfo, expected_mint: Pubkey) -> ProgramResult {
        match Self::check_spec(account) {
            Err(e) => Err(e),
            Ok(_) => fail_if(
                !TokenAccount::stored_mint_is(account.data@, expected_mint),
                ProgramError::InvalidAccountData,
            ),
        }
    }

    /// The account must be a token account for tokens of `expected_mint`.
    pub fn check_mint(account: &AccountInfo, expected_mint: &Pubkey) -> (r: ProgramResult)
        ensures
            r == Self::check_mint_spec(account, *expected_mint),
    {
        let token_account = Self::get(account)?;
        proof {
            TokenAccount::lemma_key_bytes(token_account.mint, *expected_mint);
        }
        if !pubkey_eq(&token_account.mint, expected_mint) {
            return Err(ProgramError::InvalidAccountData);
        }
        Ok(())
    }

    /// The verdict of `check_owner_and_mint`: a wrong holder comes first.
    pub open spec fn check_owner_and_mint_spec(
        account: &AccountInfo,
        expected_owner: Pubkey,
        expected_mint: Pubkey,
    ) -> ProgramResult {
        match Self::check_spec(account) {
            Err(e) => Err(e),
            Ok(_) => if !TokenAccount::stored_owner_is(account.data@, expected_owner) {
                Err(ProgramError::InvalidAccountOwner)
            } else if !TokenAccount::stored_mint_is(account.data@, expected_mint) {
                Err(ProgramError::InvalidAccountData)
            } else {
                Ok(())
            },
        }
    }

    /// The account must be a token account held by `expected_owner` for
    /// tokens of `expected_mint`.
    pub fn check_owner_and_mint(
        account: &AccountInfo,
        expected_owner: &Pubkey,
        expected_mint: &Pubkey,
    ) -> (r: ProgramResult)
        ensures
            r == Self::check_owner_and_mint_spec(account, *expected_owner, *expected_mint),
    {
        let token_account = Self::get(account)?;
        proof {
            TokenAccount::lemma_key_bytes(token_account.owner, *expected_owner);
            TokenAccount::lemma_key_bytes(token_account.mint, *expected_mint);
        }
        if !pubkey_eq(&token_account.owner, expected_owner) {
            return Err(ProgramError::InvalidAccountOwner);
        }
        if !pubkey_eq(&token_account.mint, expected_mint) {
            return Err(ProgramError::InvalidAccountData);
        }
        Ok(())
    }

    /// The verdict of `check_balance`.
    pub open spec fn check_balance_spec(account: &AccountInfo, min_amount: u64) -> ProgramResult {
        match Self::check_spec(account) {
            Err(e) => Err(e),
            Ok(_) => fail_if(
                TokenAccount::stored_amount(account.data@) < min_amount,
                ProgramError::InsufficientFunds,
            ),
        }
    }

    /// The account must be a token account that holds at least `min_amount`.
    pub fn check_balance(account: &AccountInfo, min_amount: u64) -> (r: ProgramResult)
        ensures
            r == Self::check_balance_spec(account, min_amount),
    {
        let token_account = Self::get(account)?;
        if token_account.amount < min_amount {
            return Err(ProgramError::InsufficientFunds);
        }
        Ok(())
    }

    /// Whether the extended token program owns the token account.
    pub fn is_token_2022(account: &AccountInfo) -> (r: bool)
        ensures
            r == (account.owner == SPL_TOKEN_2022_ID),
    {
        account.is_owned_by(&SPL_TOKEN_2022_ID)
    }
}

/// Checks on the account that must be a token program.
pub struct TokenProgram;

impl TokenProgram {
    /// The account must be one of the two token programs.
    pub fn check(account: &AccountInfo) -> (r: ProgramResult)
        ensures
            r == fail_if(
                account.key != TOKEN_PROGRAM_ID && account.key != SPL_TOKEN_2022_ID,
                ProgramError::IncorrectProgramId,
            ),
    {
        if !pubkey_eq(account.key(), &TOKEN_PROGRAM_ID) && !pubkey_eq(
            account.key(),
            &SPL_TOKEN_2022_ID,
        ) {
            return Err(ProgramError::IncorrectProgramId);
        }
        Ok(())
    }

    /// The account must be the token program.
    pub fn check_standard(account: &AccountInfo) -> (r: ProgramResult)
        ensures
            r == fail_if(account.key != TOKEN_PROGRAM_ID, ProgramError::IncorrectProgramId),
    {
        if !pubkey_eq(account.key(), &TOKEN_PROGRAM_ID) {
            return Err(ProgramError::IncorrectProgramId);
        }
        Ok(())
    }

    /// The account must be the extended token program.
    pub fn check_2022(account: &AccountInfo) -> (r: ProgramResult)
        ensures
            r == fail_if(account.key != SPL_TOKEN_2022_ID, ProgramError::IncorrectProgramId),
    {
        if !pubkey_eq(account.key(), &SPL_TOKEN_2022_ID) {
            return Err(ProgramError::IncorrectProgramId);
        }
        Ok(())
    }

    /// Whether the account is the extended token program.
    pub fn is_token_2022(account: &AccountInfo) -> (r: bool)
        ensures
            r == (account.key == SPL_TOKEN_2022_ID),
    {
        pubkey_eq(account.key(), &SPL_TOKEN_2022_ID)
    }
}

} // verus!
