//! Properties that relate several calls of the engine.

use vstd::prelude::*;
use crate::codec::Address;
use crate::config::{
    InitConfigAccounts, SetConfigAccounts, WithdrawAccounts, WithdrawEffects, init_config_outcome,
    set_config_outcome, withdraw_outcome,
};
use crate::error::EscrowError;
use crate::escrow::{
    ClaimAccounts, ClaimDerivation, ClaimEffects, InitAccounts, InitDerivation, InitEffects,
    RefundAccounts, RefundEffects, claim_outcome, init_outcome, refund_outcome,
};
use crate::fee::{MAX_FEE_BPS, fee_of};
use crate::state::{EscrowState, EscrowStatus, escrow_bytes, lemma_escrow_round_trip, parse_escrow};
use crate::token::token_account_of;

verus! {

/// A payment hash can be escrowed once. When the escrow account already holds
/// a record, `Init` fails whatever its other arguments; where the same call
/// on the still-empty account would have succeeded, it fails with
/// `AlreadyInitialized`.
pub proof fn lemma_duplicate_init_rejected(
    fresh: InitAccounts,
    taken: InitAccounts,
    stored: EscrowState,
    payment_hash: Address,
    recipient: Address,
    refund: Address,
    refund_after: i64,
    amount: u64,
    d: InitDerivation,
)
    requires
        taken.escrow.data@ == escrow_bytes(stored),
        fresh.escrow.data@.len() == 0,
        taken.escrow.key == fresh.escrow.key,
        taken.escrow.is_writable == fresh.escrow.is_writable,
        taken.payer == fresh.payer,
        taken.payer_token == fresh.payer_token,
        taken.vault == fresh.vault,
        taken.mint == fresh.mint,
        taken.config == fresh.config,
        taken.fee_vault == fresh.fee_vault,
    ensures
        init_outcome(taken, payment_hash, recipient, refund, refund_after, amount, d) is Err,
        init_outcome(fresh, payment_hash, recipient, refund, refund_after, amount, d) is Ok
            ==> init_outcome(taken, payment_hash, recipient, refund, refund_after, amount, d)
            == Err::<InitEffects, EscrowError>(EscrowError::AlreadyInitialized),
{
    lemma_escrow_round_trip(stored);
}

/// The preimage decides a claim: for a claim that goes through, the same
/// claim with any other digest goes through exactly when that digest is the
/// stored payment hash, and fails with `InvalidPreimage` otherwise (so the
/// record is left as it was).
pub proof fn lemma_claim_needs_preimage(a: ClaimAccounts, d: ClaimDerivation, digest: Address)
    requires
        claim_outcome(a, d) is Ok,
    ensures
        parse_escrow(a.escrow.data@) matches Some(s) && d.digest == s.payment_hash && (claim_outcome(
            a,
            ClaimDerivation { digest, ..d },
        ) is Ok <==> digest == s.payment_hash) && (digest != s.payment_hash ==> claim_outcome(
            a,
            ClaimDerivation { digest, ..d },
        ) == Err::<ClaimEffects, EscrowError>(EscrowError::InvalidPreimage)),
{
}

/// A settled record admits no further claim or refund: each fails, with
/// `NotActive` once the caller has signed and the accounts are writable.
pub proof fn lemma_settled_is_final(
    s: EscrowState,
    c: ClaimAccounts,
    cd: ClaimDerivation,
    r: RefundAccounts,
    now: i64,
    pda: Option<(Address, u8)>,
)
    requires
        s.status != EscrowStatus::Active,
        c.escrow.data@ == escrow_bytes(s),
        r.escrow.data@ == escrow_bytes(s),
    ensures
        claim_outcome(c, cd) is Err,
        refund_outcome(r, now, pda) is Err,
        c.recipient.is_signer && c.escrow.is_writable && c.vault.is_writable
            && c.recipient_token.is_writable && c.fee_vault.is_writable ==> claim_outcome(c, cd)
            == Err::<ClaimEffects, EscrowError>(EscrowError::NotActive),
        r.refund.is_signer && r.escrow.is_writable && r.vault.is_writable
            && r.refund_token.is_writable ==> refund_outcome(r, now, pda) == Err::<
            RefundEffects,
            EscrowError,
        >(EscrowError::NotActive),
{
    lemma_escrow_round_trip(s);
}

/// At most one settlement: after a successful claim is stored, any later
/// claim or refund of the escrow fails.
pub proof fn lemma_claim_then_nothing(
    a: ClaimAccounts,
    d: ClaimDerivation,
    done: ClaimEffects,
    c: ClaimAccounts,
    cd: ClaimDerivation,
    r: RefundAccounts,
    now: i64,
    pda: Option<(Address, u8)>,
)
    requires
        claim_outcome(a, d) == Ok::<ClaimEffects, EscrowError>(done),
        c.escrow.data@ == escrow_bytes(done.record),
        r.escrow.data@ == escrow_bytes(done.record),
    ensures
        done.record.status == EscrowStatus::Claimed,
        claim_outcome(c, cd) is Err,
        refund_outcome(r, now, pda) is Err,
{
    lemma_settled_is_final(done.record, c, cd, r, now, pda);
}

/// At most one settlement: after a successful refund is stored, any later
/// claim or refund of the escrow fails.
pub proof fn lemma_refund_then_nothing(
    a: RefundAccounts,
    t: i64,
    p: Option<(Address, u8)>,
    done: RefundEffects,
    c: ClaimAccounts,
    cd: ClaimDerivation,
    r: RefundAccounts,
    now: i64,
    pda: Option<(Address, u8)>,
)
    requires
        refund_outcome(a, t, p) == Ok::<RefundEffects, EscrowError>(done),
        c.escrow.data@ == escrow_bytes(done.record),
        r.escrow.data@ == escrow_bytes(done.record),
    ensures
        done.record.status == EscrowStatus::Refunded,
        claim_outcome(c, cd) is Err,
        refund_outcome(r, now, pda) is Err,
{
    lemma_settled_is_final(done.record, c, cd, r, now, pda);
}

/// The refund deadline is inclusive: for a refund that goes through, the same
/// refund at any time `later` goes through exactly when `later` is at or past
/// the stored deadline, and fails with `TooEarly` before it.
pub proof fn lemma_refund_deadline(a: RefundAccounts, now: i64, pda: Option<(Address, u8)>, later: i64)
    requires
        refund_outcome(a, now, pda) is Ok,
    ensures
        parse_escrow(a.escrow.data@) matches Some(s) && now >= s.refund_after && (refund_outcome(
            a,
            later,
            pda,
        ) is Ok <==> later >= s.refund_after) && (later < s.refund_after ==> refund_outcome(
            a,
            later,
            pda,
        ) == Err::<RefundEffects, EscrowError>(EscrowError::TooEarly)),
{
}

/// Fee split of a claimed escrow: `Init` deposits `amount` plus the rounded-down
/// fee at the configured rate, and the claim of that record pays the
/// recipient exactly `amount` and the fee vault exactly the fee, which
/// together make the deposit.
pub proof fn lemma_claim_splits_deposit(
    ia: InitAccounts,
    payment_hash: Address,
    recipient: Address,
    refund: Address,
    refund_after: i64,
    amount: u64,
    d: InitDerivation,
    created: InitEffects,
    ca: ClaimAccounts,
    cd: ClaimDerivation,
    claimed: ClaimEffects,
)
    requires
        init_outcome(ia, payment_hash, recipient, refund, refund_after, amount, d) == Ok::<
            InitEffects,
            EscrowError,
        >(created),
        ca.escrow.data@ == escrow_bytes(created.record),
        claim_outcome(ca, cd) == Ok::<ClaimEffects, EscrowError>(claimed),
    ensures
        created.record.fee_amount == fee_of(amount, created.record.fee_bps),
        created.deposit == amount + fee_of(amount, created.record.fee_bps),
        claimed.payout == amount,
        claimed.fee == fee_of(amount, created.record.fee_bps),
        claimed.payout + claimed.fee == created.deposit,
{
    lemma_escrow_round_trip(created.record);
}

/// A refund keeps no fee: the refund of a record that `Init` created returns
/// the whole deposit, amount and fee together.
pub proof fn lemma_refund_returns_deposit(
    ia: InitAccounts,
    payment_hash: Address,
    recipient: Address,
    refund: Address,
    refund_after: i64,
    amount: u64,
    d: InitDerivation,
    created: InitEffects,
    ra: RefundAccounts,
    now: i64,
    pda: Option<(Address, u8)>,
    refunded: RefundEffects,
)
    requires
        init_outcome(ia, payment_hash, recipient, refund, refund_after, amount, d) == Ok::<
            InitEffects,
            EscrowError,
        >(created),
        ra.escrow.data@ == escrow_bytes(created.record),
        refund_outcome(ra, now, pda) == Ok::<RefundEffects, EscrowError>(refunded),
    ensures
        refunded.payout == created.deposit,
        refunded.payout == amount + fee_of(amount, created.record.fee_bps),
{
    lemma_escrow_round_trip(created.record);
}

/// No configuration write accepts a fee rate above the ceiling, whatever the
/// accounts and derivation; an accepted one stores the rate it was given.
pub proof fn lemma_fee_ceiling(
    ia: InitConfigAccounts,
    sa: SetConfigAccounts,
    fee_collector: Address,
    fee_bps: u16,
    config: Option<(Address, u8)>,
)
    ensures
        fee_bps > MAX_FEE_BPS ==> init_config_outcome(ia, fee_collector, fee_bps, config) is Err,
        fee_bps > MAX_FEE_BPS ==> set_config_outcome(sa, fee_collector, fee_bps, config) is Err,
        init_config_outcome(ia, fee_collector, fee_bps, config) matches Ok(c) ==> (c.fee_bps
            == fee_bps && c.fee_bps <= MAX_FEE_BPS && c.authority == c.fee_collector),
        set_config_outcome(sa, fee_collector, fee_bps, config) matches Ok(c) ==> (c.fee_bps
            == fee_bps && c.fee_bps <= MAX_FEE_BPS && c.authority == c.fee_collector),
{
}

/// Withdrawal amounts, for a withdrawal whose accounts pass every check:
/// `0` moves the whole fee-vault balance, and nothing at all when the vault is
/// empty; an amount above the balance fails with `WithdrawalExceedsBalance`;
/// any other amount moves exactly that amount.
pub proof fn lemma_withdraw_amounts(
    a: WithdrawAccounts,
    tried: u64,
    config: Option<(Address, u8)>,
    fee_vault_ata: Option<Address>,
    amount: u64,
)
    requires
        withdraw_outcome(a, tried, config, fee_vault_ata) is Ok,
    ensures
        token_account_of(a.fee_vault.data@) matches Some(fv) && (withdraw_outcome(
            a,
            0,
            config,
            fee_vault_ata,
        ) matches Ok(w) && w.transfer == (if fv.amount == 0 {
            None
        } else {
            Some(fv.amount)
        })) && (amount > fv.amount ==> withdraw_outcome(a, amount, config, fee_vault_ata) == Err::<
            WithdrawEffects,
            EscrowError,
        >(EscrowError::WithdrawalExceedsBalance)) && (0 < amount <= fv.amount ==> (withdraw_outcome(
            a,
            amount,
            config,
            fee_vault_ata,
        ) matches Ok(w) && w.transfer == Some(amount))),
{
}

/// Every record the engine hands back to be stored is well formed: `Init`
/// stores an active record holding the amount and its fee at the configured
/// rate, vaulted at the derived address; a claim or refund stores a settled
/// record with both amounts zeroed; configuration writes keep authority and
/// collector one key and the rate within the ceiling.
pub proof fn lemma_records_well_formed(
    ia: InitAccounts,
    payment_hash: Address,
    recipient: Address,
    refund: Address,
    refund_after: i64,
    amount: u64,
    d: InitDerivation,
    ca: ClaimAccounts,
    cd: ClaimDerivation,
    ra: RefundAccounts,
    now: i64,
    pda: Option<(Address, u8)>,
    ica: InitConfigAccounts,
    sca: SetConfigAccounts,
    fee_collector: Address,
    fee_bps: u16,
    config: Option<(Address, u8)>,
)
    ensures
        init_outcome(ia, payment_hash, recipient, refund, refund_after, amount, d) matches Ok(e) ==> (
        e.record.wf() && e.record.status == EscrowStatus::Active && e.record.net_amount == amount
            && e.record.fee_amount == fee_of(amount, e.record.fee_bps) && e.record.fee_bps
            <= MAX_FEE_BPS && Some(e.record.vault) == d.vault_ata && e.record.payment_hash
            == payment_hash),
        claim_outcome(ca, cd) matches Ok(e) ==> (e.record.wf() && e.record.status
            == EscrowStatus::Claimed),
        refund_outcome(ra, now, pda) matches Ok(e) ==> (e.record.wf() && e.record.status
            == EscrowStatus::Refunded),
        init_config_outcome(ica, fee_collector, fee_bps, config) matches Ok(c) ==> c.wf(),
        set_config_outcome(sca, fee_collector, fee_bps, config) matches Ok(c) ==> c.wf(),
{
}

} // verus!
