use vstd::prelude::*;

verus! {

/// Every way an instruction can be refused.
#[derive(Clone, Copy, Debug, PartialEq, Eq, Structural)]
pub enum EscrowError {
    /// Unknown tag or a buffer too short for its instruction.
    InvalidInstruction,
    /// The escrow record address is not the one derived from the payment hash.
    InvalidEscrowPda,
    /// The vault is not the escrow's token account for the mint.
    InvalidVaultAta,
    /// A token account does not decode, or has the wrong owner or mint.
    InvalidTokenAccount,
    /// A required signature is missing, or the signer holds the wrong role.
    InvalidSigner,
    /// The preimage does not hash to the payment hash.
    InvalidPreimage,
    /// The escrow has already been claimed or refunded.
    NotActive,
    /// The refund deadline has not been reached.
    TooEarly,
    /// The configuration record address is not the derived singleton.
    InvalidConfigPda,
    /// The configuration record is absent, undecodable, or inconsistent.
    InvalidConfigState,
    /// The fee rate is above the ceiling.
    FeeTooHigh,
    /// The record to be created already exists.
    AlreadyInitialized,
    /// The fee vault is not the configuration's token account for the mint.
    InvalidFeeVaultAta,
    /// The depositor's balance does not cover amount plus fee.
    InsufficientFunds,
    /// A fee withdrawal asks for more than the fee vault holds.
    WithdrawalExceedsBalance,
    /// Amount plus fee does not fit in a token amount.
    FeeOverflow,
    /// An account that must be writable is not, or an escrow record does not decode.
    InvalidAccountData,
}

/// The program's own number for each error; `None` for the one that the host
/// reports as its generic invalid-account-data error.
pub open spec fn error_code(e: EscrowError) -> Option<u32> {
    match e {
        EscrowError::InvalidInstruction => Some(1),
        EscrowError::InvalidEscrowPda => Some(2),
        EscrowError::InvalidVaultAta => Some(3),
        EscrowError::InvalidTokenAccount => Some(4),
        EscrowError::InvalidSigner => Some(5),
        EscrowError::InvalidPreimage => Some(6),
        EscrowError::NotActive => Some(7),
        EscrowError::TooEarly => Some(8),
        EscrowError::InvalidConfigPda => Some(9),
        EscrowError::InvalidConfigState => Some(10),
        EscrowError::FeeTooHigh => Some(11),
        EscrowError::AlreadyInitialized => Some(12),
        EscrowError::InvalidFeeVaultAta => Some(13),
        EscrowError::InsufficientFunds => Some(14),
        EscrowError::WithdrawalExceedsBalance => Some(15),
        EscrowError::FeeOverflow => Some(16),
        EscrowError::InvalidAccountData => None,
    }
}

/// Distinct errors have distinct numbers.
pub proof fn lemma_error_codes_distinct(a: EscrowError, b: EscrowError)
    ensures
        error_code(a) == error_code(b) ==> a == b,
{
}

impl EscrowError {
    /// The program's own error number, or `None` for the host's generic
    /// invalid-account-data error.
    pub fn custom_code(&self) -> (r: Option<u32>)
        ensures
            r == error_code(*self),
    {
        match self {
            EscrowError::InvalidInstruction => Some(1),
            EscrowError::InvalidEscrowPda => Some(2),
            EscrowError::InvalidVaultAta => Some(3),
            EscrowError::InvalidTokenAccount => Some(4),
            EscrowError::InvalidSigner => Some(5),
            EscrowError::InvalidPreimage => Some(6),
            EscrowError::NotActive => Some(7),
            EscrowError::TooEarly => Some(8),
            EscrowError::InvalidConfigPda => Some(9),
            EscrowError::InvalidConfigState => Some(10),
            EscrowError::FeeTooHigh => Some(11),
            EscrowError::AlreadyInitialized => Some(12),
            EscrowError::InvalidFeeVaultAta => Some(13),
            EscrowError::InsufficientFunds => Some(14),
            EscrowError::WithdrawalExceedsBalance => Some(15),
            EscrowError::FeeOverflow => Some(16),
            EscrowError::InvalidAccountData => None,
        }
    }
}

} // verus!
