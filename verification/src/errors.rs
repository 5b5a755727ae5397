//! Error values reported by the pool engine.

use vstd::prelude::*;

verus! {

/// Failures that are specific to the pool.
#[derive(Clone, Copy, Debug, PartialEq, Eq, Structural)]
pub enum AmmError {
    /// The operation is not legal in the pool's current lifecycle state.
    InvalidAmmState,
}

/// Failure codes shared with the host ledger.
#[derive(Clone, Copy, Debug, PartialEq, Eq, Structural)]
pub enum ProgramError {
    /// A pool-specific failure, carried by its numeric code.
    Custom(u32),
    /// Computed amounts violate the bounds the caller declared.
    InvalidArgument,
    /// The payload has the wrong length, a zero amount or a passed deadline.
    InvalidInstructionData,
    /// An account's contents do not match what the pool recorded.
    InvalidAccountData,
    /// A balance is too small for the requested movement.
    InsufficientFunds,
    /// An account that must be a given program is another one.
    IncorrectProgramId,
    /// An account that must have signed did not.
    MissingRequiredSignature,
    /// Storage that must be fresh is already occupied.
    AccountAlreadyInitialized,
    /// Storage that must be in use is empty.
    UninitializedAccount,
    /// Fewer or more accounts were supplied than the operation takes.
    NotEnoughAccountKeys,
    /// A supplied address is not the one derived from the pool's seeds.
    InvalidSeeds,
    /// An account is held by another program than expected.
    InvalidAccountOwner,
    /// A multiply, divide, add or subtract left the representable range.
    ArithmeticOverflow,
}

impl AmmError {
    /// The numeric code under which the failure is reported to the host.
    pub open spec fn code_spec(self) -> u32 {
        match self {
            AmmError::InvalidAmmState => 0,
        }
    }

    /// The numeric code under which the failure is reported to the host.
    pub fn code(self) -> (r: u32)
        ensures
            r == self.code_spec(),
    {
        match self {
            AmmError::InvalidAmmState => 0,
        }
    }
}

impl From<AmmError> for ProgramError {
    fn from(e: AmmError) -> (r: ProgramError) {
        ProgramError::Custom(e.code())
    }
}

impl vstd::std_specs::convert::FromSpecImpl<AmmError> for ProgramError {
    open spec fn obeys_from_spec() -> bool {
        true
    }

    open spec fn from_spec(e: AmmError) -> ProgramError {
        ProgramError::Custom(e.code_spec())
    }
}

} // verus!
