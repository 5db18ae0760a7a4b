use vstd::prelude::*;
use crate::codec::Address;
use crate::error::EscrowError;

verus! {

/// What the engine sees of one account handed to an instruction.
pub struct AccountView {
    pub key: Address,
    pub is_signer: bool,
    pub is_writable: bool,
    pub data: Vec<u8>,
}

/// Fails with `InvalidSigner` unless the account signed.
pub fn assert_signer(ai: &AccountView) -> (r: Result<(), EscrowError>)
    ensures
        r == (if ai.is_signer {
            Ok(())
        } else {
            Err(EscrowError::InvalidSigner)
        }),
{
    if !ai.is_signer {
        return Err(EscrowError::InvalidSigner);
    }
    Ok(())
}

/// Fails with `InvalidAccountData` unless the account is writable.
pub fn assert_writable(ai: &AccountView) -> (r: Result<(), EscrowError>)
    ensures
        r == (if ai.is_writable {
            Ok(())
        } else {
            Err(EscrowError::InvalidAccountData)
        }),
{
    if !ai.is_writable {
        return Err(EscrowError::InvalidAccountData);
    }
    Ok(())
}

} // verus!
