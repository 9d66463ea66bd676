//! The ways in which a ledger operation is refused.

use vstd::prelude::*;

verus! {

/// Why an operation was refused. A refused operation leaves every record as
/// it found it.
#[derive(Clone, Copy, Debug, PartialEq, Eq, Structural)]
pub enum CustomError {
    /// Two identities that have to be the same differ.
    KeyMismatch,
    /// The signer lacks the capability that the operation asks for.
    Unauthorized,
    /// The participant does not belong to the vault.
    IncorrectVault,
    /// The fee destination does not belong to the vault.
    IncorrectTreasury,
    /// The collateral item was not attested by the vault's creator.
    WrongNFT,
    /// The mint differs from the configured one.
    MintMismatch,
    /// The authority differs from the configured one.
    AccountMismatch,
    /// The record has no free slot left.
    MaxStaked,
    /// The item already carries a boost.
    AlreadyBoosted,
    /// The collateral item is already among the record's active items.
    AlreadyStaked,
    /// A counter or an amount would leave its range, the clock ran backwards,
    /// or a payout interval of zero was divided by.
    ArithmeticFault,
}

impl CustomError {
    /// The message shown to a caller.
    pub open spec fn message_text(self) -> Seq<char> {
        match self {
            CustomError::KeyMismatch => "Keys should be equal"@,
            CustomError::Unauthorized => "Unauthorized access"@,
            CustomError::IncorrectVault => "User does not beling to the vault"@,
            CustomError::IncorrectTreasury => "NFT is not in collection"@,
            CustomError::WrongNFT => "Treasury Supplied doesn't belong to the vault"@,
            CustomError::MintMismatch => "Mint should be equal"@,
            CustomError::AccountMismatch => "Authority should be equal"@,
            CustomError::MaxStaked => "Max number staked"@,
            CustomError::AlreadyBoosted => "Already Boosted"@,
            CustomError::AlreadyStaked => "Already staked"@,
            CustomError::ArithmeticFault => "Arithmetic overflow or underflow"@,
        }
    }

    /// The message shown to a caller.
    pub fn message(&self) -> (r: &'static str)
        ensures
            r@ == self.message_text(),
    {
        match self {
            CustomError::KeyMismatch => "Keys should be equal",
            CustomError::Unauthorized => "Unauthorized access",
            CustomError::IncorrectVault => "User does not beling to the vault",
            CustomError::IncorrectTreasury => "NFT is not in collection",
            CustomError::WrongNFT => "Treasury Supplied doesn't belong to the vault",
            CustomError::MintMismatch => "Mint should be equal",
            CustomError::AccountMismatch => "Authority should be equal",
            CustomError::MaxStaked => "Max number staked",
            CustomError::AlreadyBoosted => "Already Boosted",
            CustomError::AlreadyStaked => "Already staked",
            CustomError::ArithmeticFault => "Arithmetic overflow or underflow",
        }
    }
}

} // verus!
