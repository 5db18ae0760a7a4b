use vstd::prelude::*;
use solana_program::program_pack::Pack;
use crate::codec::{Address, key_at, le_value};

verus! {

/// What the engine reads of a token account.
#[derive(Clone, Copy, Debug)]
pub struct TokenAccount {
    pub mint: Address,
    pub owner: Address,
    pub amount: u64,
}

/// Size in bytes of a token account.
pub const TOKEN_ACCOUNT_LEN: usize = 165;

/// The tag of an optional field: `0` (absent) or `1` (present), as a little-endian u32.
pub open spec fn option_tag_ok(t: Seq<u8>) -> bool {
    t == seq![0u8, 0u8, 0u8, 0u8] || t == seq![1u8, 0u8, 0u8, 0u8]
}

/// The token account that `d` holds, if it is an initialized (or frozen) one:
/// mint, owner and amount come first; the delegate, native-amount and
/// close-authority tags sit at bytes 72, 109 and 129, the state byte at 108.
pub open spec fn token_account_of(d: Seq<u8>) -> Option<TokenAccount> {
    if d.len() == TOKEN_ACCOUNT_LEN && option_tag_ok(d.subrange(72, 76)) && (d[108] == 1
        || d[108] == 2) && option_tag_ok(d.subrange(109, 113)) && option_tag_ok(
        d.subrange(129, 133),
    ) {
        Some(
            TokenAccount {
                mint: key_at(d, 0),
                owner: key_at(d, 32),
                amount: le_value(d.subrange(64, 72)) as u64,
            },
        )
    } else {
        None
    }
}

/// Relies on `spl_token::state::Account::unpack`: it accepts exactly 165 bytes
/// whose optional-field tags are valid and whose state byte is not
/// uninitialized, and reads the mint, owner and little-endian amount from the
/// first 72 bytes.
#[verifier::external_body]
pub(crate) fn unpack_token_account(data: &[u8]) -> (r: Option<TokenAccount>)
    ensures
        r == token_account_of(data@),
{
    spl_token::state::Account::unpack(data).ok().map(
        |a| TokenAccount { mint: a.mint.to_bytes(), owner: a.owner.to_bytes(), amount: a.amount },
    )
}

} // verus!
