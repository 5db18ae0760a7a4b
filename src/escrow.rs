use vstd::prelude::*;
use solana_program::hash::hash;
use crate::accounts::{AccountView, assert_signer, assert_writable};
use crate::address::{
    associated_token_address, associated_token_address_of, bump_of, config_pda, config_seeds,
    derived_is, derived_with_bump, escrow_seeds, pda_for_hash, program_address_of,
};
use crate::codec::{Address, keys_equal};
use crate::error::EscrowError;
use crate::fee::{MAX_FEE_BPS, compute_fee, fee_of, lemma_fee_bounded};
use crate::state::{
    CONFIG_VERSION, ESCROW_VERSION, ConfigState, EscrowState, EscrowStatus, parse_config,
    parse_escrow,
};
use crate::token::{TokenAccount, token_account_of, unpack_token_account};

verus! {

/// The SHA-256 digest of `data`.
pub uninterp spec fn sha256_of(data: Seq<u8>) -> Address;

/// Relies on `solana_program::hash::hash`: the SHA-256 digest of its input,
/// a function of the bytes alone.
#[verifier::external_body]
fn sha256(data: &Address) -> (r: Address)
    ensures
        r == sha256_of(data@),
{
    hash(data).to_bytes()
}

/// Fails with `NotActive` unless the escrow is still active.
pub fn require_active(state: &EscrowState) -> (r: Result<(), EscrowError>)
    ensures
        r == (if state.status == EscrowStatus::Active {
            Ok(())
        } else {
            Err(EscrowError::NotActive)
        }),
{
    if state.status != EscrowStatus::Active {
        return Err(EscrowError::NotActive);
    }
    Ok(())
}

// ---------------------------------------------------------------- Init

/// Accounts that `Init` reads, in instruction order; the programs and
/// sysvars it also lists matter only to the host.
pub struct InitAccounts {
    pub payer: AccountView,
    pub payer_token: AccountView,
    pub escrow: AccountView,
    pub vault: AccountView,
    pub mint: Address,
    pub config: AccountView,
    pub fee_vault: AccountView,
}

/// The addresses that `Init` checks its accounts against.
#[derive(Clone, Copy, Debug)]
pub struct InitDerivation {
    pub escrow_pda: Option<(Address, u8)>,
    pub config_pda: Option<(Address, u8)>,
    pub vault_ata: Option<Address>,
    pub fee_vault_ata: Option<Address>,
}

/// What an accepted `Init` asks the host to do, in this order: create the
/// fee vault if asked, create the escrow record signed with `escrow_bump`,
/// create the vault if asked, move `deposit` from the payer's token account
/// into the vault, and store `record`.
#[derive(Clone, Copy, Debug)]
pub struct InitEffects {
    pub create_fee_vault: bool,
    pub create_vault: bool,
    pub escrow_bump: u8,
    pub deposit: u64,
    pub record: EscrowState,
}

/// The derivations of `Init` for these accounts and payment hash.
pub open spec fn init_derivation(
    program_id: Address,
    a: InitAccounts,
    payment_hash: Address,
) -> InitDerivation {
    InitDerivation {
        escrow_pda: program_address_of(escrow_seeds(payment_hash), program_id@),
        config_pda: program_address_of(config_seeds(), program_id@),
        vault_ata: associated_token_address_of(a.escrow.key@, a.mint@),
        fee_vault_ata: associated_token_address_of(a.config.key@, a.mint@),
    }
}

/// The outcome of `Init` once the configuration record `cs` is known to be sound.
pub open spec fn init_with_config(
    a: InitAccounts,
    payment_hash: Address,
    recipient: Address,
    refund: Address,
    refund_after: i64,
    amount: u64,
    d: InitDerivation,
    cs: ConfigState,
) -> Result<InitEffects, EscrowError> {
    let fee = fee_of(amount, cs.fee_bps);
    if d.vault_ata != Some(a.vault.key) {
        Err(EscrowError::InvalidVaultAta)
    } else if !a.fee_vault.is_writable {
        Err(EscrowError::InvalidAccountData)
    } else if d.fee_vault_ata != Some(a.fee_vault.key) {
        Err(EscrowError::InvalidFeeVaultAta)
    } else {
        match token_account_of(a.payer_token.data@) {
            None => Err(EscrowError::InvalidTokenAccount),
            Some(pt) => if pt.owner != a.payer.key || pt.mint != a.mint {
                Err(EscrowError::InvalidTokenAccount)
            } else if amount + fee > u64::MAX {
                Err(EscrowError::FeeOverflow)
            } else if pt.amount < amount + fee {
                Err(EscrowError::InsufficientFunds)
            } else if a.escrow.data@.len() != 0 {
                Err(EscrowError::AlreadyInitialized)
            } else {
                Ok(
                    InitEffects {
                        create_fee_vault: a.fee_vault.data@.len() == 0,
                        create_vault: a.vault.data@.len() == 0,
                        escrow_bump: bump_of(d.escrow_pda),
                        deposit: (amount + fee) as u64,
                        record: EscrowState {
                            v: ESCROW_VERSION,
                            status: EscrowStatus::Active,
                            payment_hash,
                            recipient,
                            refund,
                            refund_after,
                            mint: a.mint,
                            net_amount: amount,
                            fee_amount: fee as u64,
                            fee_bps: cs.fee_bps,
                            fee_collector: cs.fee_collector,
                            vault: a.vault.key,
                            bump: bump_of(d.escrow_pda),
                        },
                    },
                )
            },
        }
    }
}

/// The outcome of `Init`: each check in turn, the first that fails naming the error.
pub open spec fn init_outcome(
    a: InitAccounts,
    payment_hash: Address,
    recipient: Address,
    refund: Address,
    refund_after: i64,
    amount: u64,
    d: InitDerivation,
) -> Result<InitEffects, EscrowError> {
    if !a.payer.is_signer {
        Err(EscrowError::InvalidSigner)
    } else if !a.payer.is_writable || !a.payer_token.is_writable || !a.escrow.is_writable
        || !a.vault.is_writable {
        Err(EscrowError::InvalidAccountData)
    } else if !derived_is(d.escrow_pda, a.escrow.key) {
        Err(EscrowError::InvalidEscrowPda)
    } else if !derived_is(d.config_pda, a.config.key) {
        Err(EscrowError::InvalidConfigPda)
    } else {
        match parse_config(a.config.data@) {
            None => Err(EscrowError::InvalidConfigState),
            Some(cs) => if cs.v != CONFIG_VERSION || cs.bump != bump_of(d.config_pda) {
                Err(EscrowError::InvalidConfigState)
            } else if cs.fee_bps > MAX_FEE_BPS {
                Err(EscrowError::FeeTooHigh)
            } else {
                init_with_config(a, payment_hash, recipient, refund, refund_after, amount, d, cs)
            },
        }
    }
}

/// `Init` against given derivations: checks the accounts and the
/// configuration, computes the fee, and describes the deposit and the new
/// record.
pub fn init_with(
    a: &InitAccounts,
    payment_hash: Address,
    recipient: Address,
    refund: Address,
    refund_after: i64,
    amount: u64,
    d: &InitDerivation,
) -> (r: Result<InitEffects, EscrowError>)
    ensures
        r == init_outcome(*a, payment_hash, recipient, refund, refund_after, amount, *d),
{
    if let Err(e) = assert_signer(&a.payer) {
        return Err(e);
    }
    if !a.payer.is_writable || !a.payer_token.is_writable || !a.escrow.is_writable
        || !a.vault.is_writable {
        return Err(EscrowError::InvalidAccountData);
    }
    let escrow_bump = match d.escrow_pda {
        Some(p) => {
            if !keys_equal(&p.0, &a.escrow.key) {
                return Err(EscrowError::InvalidEscrowPda);
            }
            p.1
        },
        None => return Err(EscrowError::InvalidEscrowPda),
    };
    let config_bump = match d.config_pda {
        Some(p) => {
            if !keys_equal(&p.0, &a.config.key) {
                return Err(EscrowError::InvalidConfigPda);
            }
            p.1
        },
        None => return Err(EscrowError::InvalidConfigPda),
    };
    let cs = match ConfigState::decode(a.config.data.as_slice()) {
        Some(cs) => cs,
        None => return Err(EscrowError::InvalidConfigState),
    };
    if cs.v != CONFIG_VERSION || cs.bump != config_bump {
        return Err(EscrowError::InvalidConfigState);
    }
    if cs.fee_bps > MAX_FEE_BPS {
        return Err(EscrowError::FeeTooHigh);
    }
    match d.vault_ata {
        Some(k) => {
            if !keys_equal(&k, &a.vault.key) {
                return Err(EscrowError::InvalidVaultAta);
            }
        },
        None => return Err(EscrowError::InvalidVaultAta),
    }
    if let Err(e) = assert_writable(&a.fee_vault) {
        return Err(e);
    }
    match d.fee_vault_ata {
        Some(k) => {
            if !keys_equal(&k, &a.fee_vault.key) {
                return Err(EscrowError::InvalidFeeVaultAta);
            }
        },
        None => return Err(EscrowError::InvalidFeeVaultAta),
    }
    let pt = match unpack_token_account(a.payer_token.data.as_slice()) {
        Some(t) => t,
        None => return Err(EscrowError::InvalidTokenAccount),
    };
    if !keys_equal(&pt.owner, &a.payer.key) || !keys_equal(&pt.mint, &a.mint) {
        return Err(EscrowError::InvalidTokenAccount);
    }
    proof {
        lemma_fee_bounded(amount, cs.fee_bps);
    }
    let fee = match compute_fee(amount, cs.fee_bps) {
        Some(f) => f,
        None => return Err(EscrowError::FeeOverflow),
    };
    let total = match amount.checked_add(fee) {
        Some(t) => t,
        None => return Err(EscrowError::FeeOverflow),
    };
    if pt.amount < total {
        return Err(EscrowError::InsufficientFunds);
    }
    if a.escrow.data.len() != 0 {
        return Err(EscrowError::AlreadyInitialized);
    }
    Ok(
        InitEffects {
            create_fee_vault: a.fee_vault.data.len() == 0,
            create_vault: a.vault.data.len() == 0,
            escrow_bump,
            deposit: total,
            record: EscrowState {
                v: ESCROW_VERSION,
                status: EscrowStatus::Active,
                payment_hash,
                recipient,
                refund,
                refund_after,
                mint: a.mint,
                net_amount: amount,
                fee_amount: fee,
                fee_bps: cs.fee_bps,
                fee_collector: cs.fee_collector,
                vault: a.vault.key,
                bump: escrow_bump,
            },
        },
    )
}

/// `Init`: derives the escrow, configuration, vault and fee-vault addresses
/// and decides as `init_with` does.
pub fn process_init(
    program_id: &Address,
    a: &InitAccounts,
    payment_hash: Address,
    recipient: Address,
    refund: Address,
    refund_after: i64,
    amount: u64,
) -> (r: Result<InitEffects, EscrowError>)
    ensures
        r == init_outcome(
            *a,
            payment_hash,
            recipient,
            refund,
            refund_after,
            amount,
            init_derivation(*program_id, *a, payment_hash),
        ),
{
    let d = InitDerivation {
        escrow_pda: pda_for_hash(program_id, &payment_hash),
        config_pda: config_pda(program_id),
        vault_ata: associated_token_address(&a.escrow.key, &a.mint),
        fee_vault_ata: associated_token_address(&a.config.key, &a.mint),
    };
    init_with(a, payment_hash, recipient, refund, refund_after, amount, &d)
}

// ---------------------------------------------------------------- Claim

/// Accounts that `Claim` reads, in instruction order.
pub struct ClaimAccounts {
    pub recipient: AccountView,
    pub escrow: AccountView,
    pub vault: AccountView,
    pub recipient_token: AccountView,
    pub fee_vault: AccountView,
}

/// What `Claim` compares against: the preimage's digest, the escrow and
/// configuration derivations, and the fee vault derived from the latter
/// (`None` when either derivation finds no address).
#[derive(Clone, Copy, Debug)]
pub struct ClaimDerivation {
    pub digest: Address,
    pub escrow_pda: Option<(Address, u8)>,
    pub config_pda: Option<(Address, u8)>,
    pub fee_vault_ata: Option<Address>,
}

/// What an accepted `Claim` asks the host to do: move `payout` from the vault
/// to the recipient's token account, then `fee` (when above zero) to the fee
/// vault, both signed as the escrow with `escrow_bump`; then store `record`.
#[derive(Clone, Copy, Debug)]
pub struct ClaimEffects {
    pub escrow_bump: u8,
    pub payout: u64,
    pub fee: u64,
    pub record: EscrowState,
}

/// A record after it leaves `Active` for `status`: amounts zeroed, the rest kept.
pub open spec fn closed_record(s: EscrowState, status: EscrowStatus) -> EscrowState {
    EscrowState { status, net_amount: 0, fee_amount: 0, ..s }
}

/// The derivations of `Claim` for these accounts and preimage.
pub open spec fn claim_derivation(
    program_id: Address,
    a: ClaimAccounts,
    preimage: Address,
) -> ClaimDerivation {
    let config = program_address_of(config_seeds(), program_id@);
    ClaimDerivation {
        digest: sha256_of(preimage@),
        escrow_pda: match parse_escrow(a.escrow.data@) {
            Some(s) => program_address_of(escrow_seeds(s.payment_hash), program_id@),
            None => None,
        },
        config_pda: config,
        fee_vault_ata: match (config, parse_escrow(a.escrow.data@)) {
            (Some(c), Some(s)) => associated_token_address_of(c.0@, s.mint@),
            _ => None,
        },
    }
}

/// The outcome of `Claim` once the escrow record `s` is known to be active
/// and to name the signer, the vault and the preimage.
pub open spec fn claim_unlocked(
    a: ClaimAccounts,
    d: ClaimDerivation,
    s: EscrowState,
) -> Result<ClaimEffects, EscrowError> {
    match (token_account_of(a.vault.data@), token_account_of(a.recipient_token.data@)) {
        (Some(vt), Some(rt)) => if vt.mint != s.mint || rt.mint != s.mint {
            Err(EscrowError::InvalidTokenAccount)
        } else if rt.owner != a.recipient.key {
            Err(EscrowError::InvalidTokenAccount)
        } else if !derived_with_bump(d.escrow_pda, a.escrow.key, s.bump) {
            Err(EscrowError::InvalidEscrowPda)
        } else if vt.owner != a.escrow.key {
            Err(EscrowError::InvalidTokenAccount)
        } else if d.fee_vault_ata != Some(a.fee_vault.key) {
            Err(EscrowError::InvalidFeeVaultAta)
        } else {
            match token_account_of(a.fee_vault.data@) {
                None => Err(EscrowError::InvalidTokenAccount),
                Some(ft) => if ft.mint != s.mint || !derived_is(d.config_pda, ft.owner) {
                    Err(EscrowError::InvalidTokenAccount)
                } else {
                    Ok(
                        ClaimEffects {
                            escrow_bump: s.bump,
                            payout: s.net_amount,
                            fee: s.fee_amount,
                            record: closed_record(s, EscrowStatus::Claimed),
                        },
                    )
                },
            }
        },
        _ => Err(EscrowError::InvalidTokenAccount),
    }
}

/// The outcome of `Claim`: each check in turn, the first that fails naming the error.
pub open spec fn claim_outcome(a: ClaimAccounts, d: ClaimDerivation) -> Result<
    ClaimEffects,
    EscrowError,
> {
    if !a.recipient.is_signer {
        Err(EscrowError::InvalidSigner)
    } else if !a.escrow.is_writable || !a.vault.is_writable || !a.recipient_token.is_writable
        || !a.fee_vault.is_writable {
        Err(EscrowError::InvalidAccountData)
    } else {
        match parse_escrow(a.escrow.data@) {
            None => Err(EscrowError::InvalidAccountData),
            Some(s) => if s.status != EscrowStatus::Active {
                Err(EscrowError::NotActive)
            } else if s.recipient != a.recipient.key {
                Err(EscrowError::InvalidSigner)
            } else if s.vault != a.vault.key {
                Err(EscrowError::InvalidVaultAta)
            } else if d.digest != s.payment_hash {
                Err(EscrowError::InvalidPreimage)
            } else {
                claim_unlocked(a, d, s)
            },
        }
    }
}

/// Unpacks a token account, failing with `InvalidTokenAccount`.
fn token_or_err(data: &Vec<u8>) -> (r: Result<TokenAccount, EscrowError>)
    ensures
        r == (match token_account_of(data@) {
            Some(t) => Ok::<TokenAccount, EscrowError>(t),
            None => Err(EscrowError::InvalidTokenAccount),
        }),
{
    match unpack_token_account(data.as_slice()) {
        Some(t) => Ok(t),
        None => Err(EscrowError::InvalidTokenAccount),
    }
}

/// `Claim` against a given digest and derivations: pays the recipient and
/// the fee vault from the vault and closes the record.
pub fn claim_with(a: &ClaimAccounts, d: &ClaimDerivation) -> (r: Result<ClaimEffects, EscrowError>)
    ensures
        r == claim_outcome(*a, *d),
{
    if let Err(e) = assert_signer(&a.recipient) {
        return Err(e);
    }
    if !a.escrow.is_writable || !a.vault.is_writable || !a.recipient_token.is_writable
        || !a.fee_vault.is_writable {
        return Err(EscrowError::InvalidAccountData);
    }
    let s = match EscrowState::decode(a.escrow.data.as_slice()) {
        Some(s) => s,
        None => return Err(EscrowError::InvalidAccountData),
    };
    if let Err(e) = require_active(&s) {
        return Err(e);
    }
    if !keys_equal(&s.recipient, &a.recipient.key) {
        return Err(EscrowError::InvalidSigner);
    }
    if !keys_equal(&s.vault, &a.vault.key) {
        return Err(EscrowError::InvalidVaultAta);
    }
    if !keys_equal(&d.digest, &s.payment_hash) {
        return Err(EscrowError::InvalidPreimage);
    }
    let vt = match token_or_err(&a.vault.data) {
        Ok(t) => t,
        Err(e) => return Err(e),
    };
    let rt = match token_or_err(&a.recipient_token.data) {
        Ok(t) => t,
        Err(e) => return Err(e),
    };
    if !keys_equal(&vt.mint, &s.mint) || !keys_equal(&rt.mint, &s.mint) {
        return Err(EscrowError::InvalidTokenAccount);
    }
    if !keys_equal(&rt.owner, &a.recipient.key) {
        return Err(EscrowError::InvalidTokenAccount);
    }
    match d.escrow_pda {
        Some(p) => {
            if !keys_equal(&p.0, &a.escrow.key) || p.1 != s.bump {
                return Err(EscrowError::InvalidEscrowPda);
            }
        },
        None => return Err(EscrowError::InvalidEscrowPda),
    }
    if !keys_equal(&vt.owner, &a.escrow.key) {
        return Err(EscrowError::InvalidTokenAccount);
    }
    match d.fee_vault_ata {
        Some(k) => {
            if !keys_equal(&k, &a.fee_vault.key) {
                return Err(EscrowError::InvalidFeeVaultAta);
            }
        },
        None => return Err(EscrowError::InvalidFeeVaultAta),
    }
    let ft = match token_or_err(&a.fee_vault.data) {
        Ok(t) => t,
        Err(e) => return Err(e),
    };
    if !keys_equal(&ft.mint, &s.mint) {
        return Err(EscrowError::InvalidTokenAccount);
    }
    match d.config_pda {
        Some(c) => {
            if !keys_equal(&c.0, &ft.owner) {
                return Err(EscrowError::InvalidTokenAccount);
            }
        },
        None => return Err(EscrowError::InvalidTokenAccount),
    }
    let record = EscrowState { status: EscrowStatus::Claimed, net_amount: 0, fee_amount: 0, ..s };
    Ok(ClaimEffects { escrow_bump: s.bump, payout: s.net_amount, fee: s.fee_amount, record })
}

/// `Claim`: hashes the preimage, derives the escrow, configuration and fee
/// vault addresses from the stored record, and decides as `claim_with` does.
pub fn process_claim(program_id: &Address, a: &ClaimAccounts, preimage: Address) -> (r: Result<
    ClaimEffects,
    EscrowError,
>)
    ensures
        r == claim_outcome(*a, claim_derivation(*program_id, *a, preimage)),
{
    let digest = sha256(&preimage);
    let config = config_pda(program_id);
    let (escrow_pda, fee_vault_ata) = match EscrowState::decode(a.escrow.data.as_slice()) {
        Some(s) => {
            let fee_vault_ata = match config {
                Some(c) => associated_token_address(&c.0, &s.mint),
                None => None,
            };
            (pda_for_hash(program_id, &s.payment_hash), fee_vault_ata)
        },
        None => (None, None),
    };
    let d = ClaimDerivation { digest, escrow_pda, config_pda: config, fee_vault_ata };
    claim_with(a, &d)
}

// ---------------------------------------------------------------- Refund

/// Accounts that `Refund` reads, in instruction order.
pub struct RefundAccounts {
    pub refund: AccountView,
    pub escrow: AccountView,
    pub vault: AccountView,
    pub refund_token: AccountView,
}

/// What an accepted `Refund` asks the host to do: move `payout` from the
/// vault to the refund token account, signed as the escrow with
/// `escrow_bump`; then store `record`.
#[derive(Clone, Copy, Debug)]
pub struct RefundEffects {
    pub escrow_bump: u8,
    pub payout: u64,
    pub record: EscrowState,
}

/// The escrow derivation of `Refund` for these accounts.
pub open spec fn refund_derivation(program_id: Address, a: RefundAccounts) -> Option<(Address, u8)> {
    match parse_escrow(a.escrow.data@) {
        Some(s) => program_address_of(escrow_seeds(s.payment_hash), program_id@),
        None => None,
    }
}

/// The outcome of `Refund` at time `now`: each check in turn, the first that
/// fails naming the error.
pub open spec fn refund_outcome(a: RefundAccounts, now: i64, escrow_pda: Option<(Address, u8)>) -> Result<
    RefundEffects,
    EscrowError,
> {
    if !a.refund.is_signer {
        Err(EscrowError::InvalidSigner)
    } else if !a.escrow.is_writable || !a.vault.is_writable || !a.refund_token.is_writable {
        Err(EscrowError::InvalidAccountData)
    } else {
        match parse_escrow(a.escrow.data@) {
            None => Err(EscrowError::InvalidAccountData),
            Some(s) => if s.status != EscrowStatus::Active {
                Err(EscrowError::NotActive)
            } else if s.refund != a.refund.key {
                Err(EscrowError::InvalidSigner)
            } else if s.vault != a.vault.key {
                Err(EscrowError::InvalidVaultAta)
            } else if now < s.refund_after {
                Err(EscrowError::TooEarly)
            } else {
                match (token_account_of(a.vault.data@), token_account_of(a.refund_token.data@)) {
                    (Some(vt), Some(rt)) => if vt.mint != s.mint || rt.mint != s.mint {
                        Err(EscrowError::InvalidTokenAccount)
                    } else if rt.owner != a.refund.key {
                        Err(EscrowError::InvalidTokenAccount)
                    } else if !derived_with_bump(escrow_pda, a.escrow.key, s.bump) {
                        Err(EscrowError::InvalidEscrowPda)
                    } else if vt.owner != a.escrow.key {
                        Err(EscrowError::InvalidTokenAccount)
                    } else if s.net_amount + s.fee_amount > u64::MAX {
                        Err(EscrowError::FeeOverflow)
                    } else {
                        Ok(
                            RefundEffects {
                                escrow_bump: s.bump,
                                payout: (s.net_amount + s.fee_amount) as u64,
                                record: closed_record(s, EscrowStatus::Refunded),
                            },
                        )
                    },
                    _ => Err(EscrowError::InvalidTokenAccount),
                }
            },
        }
    }
}

/// `Refund` at time `now` against a given escrow derivation: returns the whole
/// deposit to the refund party once the deadline has come, and closes the record.
pub fn refund_with(a: &RefundAccounts, now: i64, escrow_pda: Option<(Address, u8)>) -> (r: Result<
    RefundEffects,
    EscrowError,
>)
    ensures
        r == refund_outcome(*a, now, escrow_pda),
{
    if let Err(e) = assert_signer(&a.refund) {
        return Err(e);
    }
    if !a.escrow.is_writable || !a.vault.is_writable || !a.refund_token.is_writable {
        return Err(EscrowError::InvalidAccountData);
    }
    let s = match EscrowState::decode(a.escrow.data.as_slice()) {
        Some(s) => s,
        None => return Err(EscrowError::InvalidAccountData),
    };
    if let Err(e) = require_active(&s) {
        return Err(e);
    }
    if !keys_equal(&s.refund, &a.refund.key) {
        return Err(EscrowError::InvalidSigner);
    }
    if !keys_equal(&s.vault, &a.vault.key) {
        return Err(EscrowError::InvalidVaultAta);
    }
    if now < s.refund_after {
        return Err(EscrowError::TooEarly);
    }
    let vt = match token_or_err(&a.vault.data) {
        Ok(t) => t,
        Err(e) => return Err(e),
    };
    let rt = match token_or_err(&a.refund_token.data) {
        Ok(t) => t,
        Err(e) => return Err(e),
    };
    if !keys_equal(&vt.mint, &s.mint) || !keys_equal(&rt.mint, &s.mint) {
        return Err(EscrowError::InvalidTokenAccount);
    }
    if !keys_equal(&rt.owner, &a.refund.key) {
        return Err(EscrowError::InvalidTokenAccount);
    }
    match escrow_pda {
        Some(p) => {
            if !keys_equal(&p.0, &a.escrow.key) || p.1 != s.bump {
                return Err(EscrowError::InvalidEscrowPda);
            }
        },
        None => return Err(EscrowError::InvalidEscrowPda),
    }
    if !keys_equal(&vt.owner, &a.escrow.key) {
        return Err(EscrowError::InvalidTokenAccount);
    }
    let total = match s.net_amount.checked_add(s.fee_amount) {
        Some(t) => t,
        None => return Err(EscrowError::FeeOverflow),
    };
    let record = EscrowState { status: EscrowStatus::Refunded, net_amount: 0, fee_amount: 0, ..s };
    Ok(RefundEffects { escrow_bump: s.bump, payout: total, record })
}

/// `Refund` at time `now`: derives the escrow address from the stored record
/// and decides as `refund_with` does.
pub fn process_refund(program_id: &Address, a: &RefundAccounts, now: i64) -> (r: Result<
    RefundEffects,
    EscrowError,
>)
    ensures
        r == refund_outcome(*a, now, refund_derivation(*program_id, *a)),
{
    let escrow_pda = match EscrowState::decode(a.escrow.data.as_slice()) {
        Some(s) => pda_for_hash(program_id, &s.payment_hash),
        None => None,
    };
    refund_with(a, now, escrow_pda)
}

} // verus!
