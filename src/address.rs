use vstd::prelude::*;
use solana_program::pubkey::Pubkey;
use crate::codec::{Address, push_bytes};

verus! {

/// Domain tag of escrow record addresses (ASCII `escrow`).
pub const ESCROW_SEED: [u8; 6] = [0x65, 0x73, 0x63, 0x72, 0x6f, 0x77];

/// Domain tag of the configuration record address (ASCII `config`).
pub const CONFIG_SEED: [u8; 6] = [0x63, 0x6f, 0x6e, 0x66, 0x69, 0x67];

/// The token program's id (`TokenkegQfeZyiNwAJbNbGKPFXCWuBvf9Ss623VQ5DA`).
pub const TOKEN_PROGRAM_ID: [u8; 32] = [
    0x06, 0xdd, 0xf6, 0xe1, 0xd7, 0x65, 0xa1, 0x93, 0xd9, 0xcb, 0xe1, 0x46, 0xce, 0xeb, 0x79, 0xac,
    0x1c, 0xb4, 0x85, 0xed, 0x5f, 0x5b, 0x37, 0x91, 0x3a, 0x8c, 0xf5, 0x85, 0x7e, 0xff, 0x00, 0xa9,
];

/// The associated-token program's id (`ATokenGPvbdGVxr1b2hvZbsiqW5xWH25efTNsLJA8knL`).
pub const ASSOCIATED_TOKEN_PROGRAM_ID: [u8; 32] = [
    0x8c, 0x97, 0x25, 0x8f, 0x4e, 0x24, 0x89, 0xf1, 0xbb, 0x3d, 0x10, 0x29, 0x14, 0x8e, 0x0d, 0x83,
    0x0b, 0x5a, 0x13, 0x99, 0xda, 0xff, 0x10, 0x84, 0x04, 0x8e, 0x7b, 0xd8, 0xdb, 0xe9, 0xf8, 0x59,
];

/// The program-derived address and bump seed for `seeds` under `program_id`,
/// or `None` when no bump seed gives an address off the curve.
pub uninterp spec fn program_address_of(seeds: Seq<Seq<u8>>, program_id: Seq<u8>) -> Option<(Address, u8)>;

/// Relies on `Pubkey::try_find_program_address`: it searches bump seeds from
/// 255 downwards and returns the first derived address that lies off the
/// curve, or `None`; the outcome depends on the seeds and program id alone.
#[verifier::external_body]
fn find_program_address(seeds: &Vec<Vec<u8>>, program_id: &Address) -> (r: Option<(Address, u8)>)
    ensures
        r == program_address_of(seeds.deep_view(), program_id@),
{
    let refs: Vec<&[u8]> = seeds.iter().map(|s| s.as_slice()).collect();
    Pubkey::try_find_program_address(&refs, &Pubkey::new_from_array(*program_id))
        .map(|(key, bump)| (key.to_bytes(), bump))
}

/// Whether a derivation produced `key` (any bump).
pub open spec fn derived_is(p: Option<(Address, u8)>, key: Address) -> bool {
    p matches Some(q) && q.0 == key
}

/// Whether a derivation produced `key` with bump `bump`.
pub open spec fn derived_with_bump(p: Option<(Address, u8)>, key: Address, bump: u8) -> bool {
    p matches Some(q) && q.0 == key && q.1 == bump
}

/// The bump of a derivation that succeeded.
pub open spec fn bump_of(p: Option<(Address, u8)>) -> u8 {
    match p {
        Some(q) => q.1,
        None => 0,
    }
}

/// Seeds of the escrow record for a payment hash.
pub open spec fn escrow_seeds(payment_hash: Address) -> Seq<Seq<u8>> {
    seq![ESCROW_SEED@, payment_hash@]
}

/// Seeds of the configuration singleton.
pub open spec fn config_seeds() -> Seq<Seq<u8>> {
    seq![CONFIG_SEED@]
}

/// Seeds of the associated token account of `wallet` for `mint`: the wallet,
/// the token program id and the mint.
pub open spec fn associated_token_seeds(wallet: Seq<u8>, mint: Seq<u8>) -> Seq<Seq<u8>> {
    seq![wallet, TOKEN_PROGRAM_ID@, mint]
}

/// The associated token account address of `wallet` for `mint`: the address
/// that the associated-token program derives from those seeds, or `None`
/// when no bump seed gives one.
pub open spec fn associated_token_address_of(wallet: Seq<u8>, mint: Seq<u8>) -> Option<Address> {
    match program_address_of(associated_token_seeds(wallet, mint), ASSOCIATED_TOKEN_PROGRAM_ID@) {
        Some(p) => Some(p.0),
        None => None,
    }
}

/// The associated token account address of `wallet` for `mint`.
pub fn associated_token_address(wallet: &Address, mint: &Address) -> (r: Option<Address>)
    ensures
        r == associated_token_address_of(wallet@, mint@),
{
    let mut w: Vec<u8> = Vec::new();
    push_bytes(&mut w, wallet.as_slice());
    let mut t: Vec<u8> = Vec::new();
    push_bytes(&mut t, TOKEN_PROGRAM_ID.as_slice());
    let mut m: Vec<u8> = Vec::new();
    push_bytes(&mut m, mint.as_slice());
    assert(w@ =~= wallet@);
    assert(t@ =~= TOKEN_PROGRAM_ID@);
    assert(m@ =~= mint@);
    assert(w.deep_view() =~= w@);
    assert(t.deep_view() =~= t@);
    assert(m.deep_view() =~= m@);
    let mut seeds: Vec<Vec<u8>> = Vec::new();
    seeds.push(w);
    seeds.push(t);
    seeds.push(m);
    assert(seeds.deep_view() =~= associated_token_seeds(wallet@, mint@));
    let program = ASSOCIATED_TOKEN_PROGRAM_ID;
    match find_program_address(&seeds, &program) {
        Some(p) => Some(p.0),
        None => None,
    }
}

/// The escrow record address and bump for `payment_hash`.
pub fn pda_for_hash(program_id: &Address, payment_hash: &Address) -> (r: Option<(Address, u8)>)
    ensures
        r == program_address_of(escrow_seeds(*payment_hash), program_id@),
{
    let mut tag: Vec<u8> = Vec::new();
    push_bytes(&mut tag, ESCROW_SEED.as_slice());
    let mut hash: Vec<u8> = Vec::new();
    push_bytes(&mut hash, payment_hash.as_slice());
    assert(tag@ =~= ESCROW_SEED@);
    assert(hash@ =~= payment_hash@);
    assert(tag.deep_view() =~= tag@);
    assert(hash.deep_view() =~= hash@);
    let mut seeds: Vec<Vec<u8>> = Vec::new();
    seeds.push(tag);
    seeds.push(hash);
    assert(seeds.deep_view() =~= escrow_seeds(*payment_hash));
    find_program_address(&seeds, program_id)
}

/// The configuration singleton's address and bump.
pub fn config_pda(program_id: &Address) -> (r: Option<(Address, u8)>)
    ensures
        r == program_address_of(config_seeds(), program_id@),
{
    let mut tag: Vec<u8> = Vec::new();
    push_bytes(&mut tag, CONFIG_SEED.as_slice());
    assert(tag@ =~= CONFIG_SEED@);
    assert(tag.deep_view() =~= tag@);
    let mut seeds: Vec<Vec<u8>> = Vec::new();
    seeds.push(tag);
    assert(seeds.deep_view() =~= config_seeds());
    find_program_address(&seeds, program_id)
}

} // verus!
