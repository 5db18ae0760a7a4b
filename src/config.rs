use vstd::prelude::*;
use crate::accounts::{AccountView, assert_signer, assert_writable};
use crate::address::{
    associated_token_address, associated_token_address_of, bump_of, config_pda, config_seeds,
    derived_is, program_address_of,
};
use crate::codec::{Address, keys_equal};
use crate::error::EscrowError;
use crate::fee::MAX_FEE_BPS;
use crate::state::{CONFIG_VERSION, ConfigState, parse_config};
use crate::token::{token_account_of, unpack_token_account};

verus! {

/// The configuration singleton's derivation under `program_id`.
pub open spec fn config_derivation(program_id: Address) -> Option<(Address, u8)> {
    program_address_of(config_seeds(), program_id@)
}

// ---------------------------------------------------------------- InitConfig

/// Accounts that `InitConfig` reads: the paying authority and the record.
pub struct InitConfigAccounts {
    pub payer: AccountView,
    pub config: AccountView,
}

/// The outcome of `InitConfig`: on success the record to create (signed with
/// its bump) and store.
pub open spec fn init_config_outcome(
    a: InitConfigAccounts,
    fee_collector: Address,
    fee_bps: u16,
    config: Option<(Address, u8)>,
) -> Result<ConfigState, EscrowError> {
    if !a.payer.is_signer {
        Err(EscrowError::InvalidSigner)
    } else if !a.payer.is_writable || !a.config.is_writable {
        Err(EscrowError::InvalidAccountData)
    } else if fee_bps > MAX_FEE_BPS {
        Err(EscrowError::FeeTooHigh)
    } else if a.payer.key != fee_collector {
        Err(EscrowError::InvalidSigner)
    } else if !derived_is(config, a.config.key) {
        Err(EscrowError::InvalidConfigPda)
    } else if a.config.data@.len() != 0 {
        Err(EscrowError::AlreadyInitialized)
    } else {
        Ok(
            ConfigState {
                v: CONFIG_VERSION,
                authority: a.payer.key,
                fee_collector,
                fee_bps,
                bump: bump_of(config),
            },
        )
    }
}

/// `InitConfig` against a given derivation.
pub fn init_config_with(
    a: &InitConfigAccounts,
    fee_collector: Address,
    fee_bps: u16,
    config: Option<(Address, u8)>,
) -> (r: Result<ConfigState, EscrowError>)
    ensures
        r == init_config_outcome(*a, fee_collector, fee_bps, config),
{
    if let Err(e) = assert_signer(&a.payer) {
        return Err(e);
    }
    if let Err(e) = assert_writable(&a.payer) {
        return Err(e);
    }
    if let Err(e) = assert_writable(&a.config) {
        return Err(e);
    }
    if fee_bps > MAX_FEE_BPS {
        return Err(EscrowError::FeeTooHigh);
    }
    if !keys_equal(&a.payer.key, &fee_collector) {
        return Err(EscrowError::InvalidSigner);
    }
    let bump = match config {
        Some(p) => {
            if !keys_equal(&p.0, &a.config.key) {
                return Err(EscrowError::InvalidConfigPda);
            }
            p.1
        },
        None => return Err(EscrowError::InvalidConfigPda),
    };
    if a.config.data.len() != 0 {
        return Err(EscrowError::AlreadyInitialized);
    }
    Ok(ConfigState { v: CONFIG_VERSION, authority: a.payer.key, fee_collector, fee_bps, bump })
}

/// `InitConfig`: creates the fee configuration with the payer as authority and collector.
pub fn process_init_config(
    program_id: &Address,
    a: &InitConfigAccounts,
    fee_collector: Address,
    fee_bps: u16,
) -> (r: Result<ConfigState, EscrowError>)
    ensures
        r == init_config_outcome(*a, fee_collector, fee_bps, config_derivation(*program_id)),
{
    let config = config_pda(program_id);
    init_config_with(a, fee_collector, fee_bps, config)
}

// ---------------------------------------------------------------- SetConfig

/// Accounts that `SetConfig` reads: the current authority and the record.
pub struct SetConfigAccounts {
    pub authority: AccountView,
    pub config: AccountView,
}

/// The outcome of `SetConfig`: on success the updated record to store.
pub open spec fn set_config_outcome(
    a: SetConfigAccounts,
    fee_collector: Address,
    fee_bps: u16,
    config: Option<(Address, u8)>,
) -> Result<ConfigState, EscrowError> {
    if !a.authority.is_signer {
        Err(EscrowError::InvalidSigner)
    } else if !a.config.is_writable {
        Err(EscrowError::InvalidAccountData)
    } else if fee_bps > MAX_FEE_BPS {
        Err(EscrowError::FeeTooHigh)
    } else if a.authority.key != fee_collector {
        Err(EscrowError::InvalidSigner)
    } else if !derived_is(config, a.config.key) {
        Err(EscrowError::InvalidConfigPda)
    } else {
        match parse_config(a.config.data@) {
            None => Err(EscrowError::InvalidConfigState),
            Some(cs) => if cs.v != CONFIG_VERSION || cs.bump != bump_of(config) {
                Err(EscrowError::InvalidConfigState)
            } else if cs.authority != a.authority.key {
                Err(EscrowError::InvalidSigner)
            } else {
                Ok(ConfigState { fee_collector, fee_bps, ..cs })
            },
        }
    }
}

/// Decodes the configuration record and checks its version and bump.
fn sound_config(data: &Vec<u8>, bump: u8) -> (r: Result<ConfigState, EscrowError>)
    ensures
        r == (match parse_config(data@) {
            Some(cs) => if cs.v != CONFIG_VERSION || cs.bump != bump {
                Err(EscrowError::InvalidConfigState)
            } else {
                Ok(cs)
            },
            None => Err(EscrowError::InvalidConfigState),
        }),
{
    let cs = match ConfigState::decode(data.as_slice()) {
        Some(cs) => cs,
        None => return Err(EscrowError::InvalidConfigState),
    };
    if cs.v != CONFIG_VERSION || cs.bump != bump {
        return Err(EscrowError::InvalidConfigState);
    }
    Ok(cs)
}

/// The bump of a derivation that must have produced `key`; `err` otherwise.
fn expect_derived(p: Option<(Address, u8)>, key: &Address, err: EscrowError) -> (r: Result<
    u8,
    EscrowError,
>)
    ensures
        r == (if derived_is(p, *key) {
            Ok::<u8, EscrowError>(bump_of(p))
        } else {
            Err(err)
        }),
{
    match p {
        Some(q) => {
            if !keys_equal(&q.0, key) {
                return Err(err);
            }
            Ok(q.1)
        },
        None => Err(err),
    }
}

/// `SetConfig` against a given derivation.
pub fn set_config_with(
    a: &SetConfigAccounts,
    fee_collector: Address,
    fee_bps: u16,
    config: Option<(Address, u8)>,
) -> (r: Result<ConfigState, EscrowError>)
    ensures
        r == set_config_outcome(*a, fee_collector, fee_bps, config),
{
    if let Err(e) = assert_signer(&a.authority) {
        return Err(e);
    }
    if let Err(e) = assert_writable(&a.config) {
        return Err(e);
    }
    if fee_bps > MAX_FEE_BPS {
        return Err(EscrowError::FeeTooHigh);
    }
    if !keys_equal(&a.authority.key, &fee_collector) {
        return Err(EscrowError::InvalidSigner);
    }
    let bump = match expect_derived(config, &a.config.key, EscrowError::InvalidConfigPda) {
        Ok(b) => b,
        Err(e) => return Err(e),
    };
    let cs = match sound_config(&a.config.data, bump) {
        Ok(cs) => cs,
        Err(e) => return Err(e),
    };
    if !keys_equal(&cs.authority, &a.authority.key) {
        return Err(EscrowError::InvalidSigner);
    }
    Ok(ConfigState { fee_collector, fee_bps, ..cs })
}

/// `SetConfig`: replaces the fee terms; the authority stays.
pub fn process_set_config(
    program_id: &Address,
    a: &SetConfigAccounts,
    fee_collector: Address,
    fee_bps: u16,
) -> (r: Result<ConfigState, EscrowError>)
    ensures
        r == set_config_outcome(*a, fee_collector, fee_bps, config_derivation(*program_id)),
{
    let config = config_pda(program_id);
    set_config_with(a, fee_collector, fee_bps, config)
}

// ---------------------------------------------------------------- WithdrawFees

/// Accounts that `WithdrawFees` reads, in instruction order.
pub struct WithdrawAccounts {
    pub fee_collector: AccountView,
    pub config: AccountView,
    pub fee_vault: AccountView,
    pub destination: AccountView,
}

/// What an accepted `WithdrawFees` asks the host to do: move `transfer` (when
/// there is one) from the fee vault to the destination, signed as the
/// configuration with `config_bump`.
#[derive(Clone, Copy, Debug)]
pub struct WithdrawEffects {
    pub config_bump: u8,
    pub transfer: Option<u64>,
}

/// The amount a withdrawal resolves to: `0` stands for the whole balance.
pub open spec fn resolved_withdrawal(amount: u64, balance: u64) -> u64 {
    if amount == 0 {
        balance
    } else {
        amount
    }
}

/// The fee-vault derivation of `WithdrawFees`: the configuration's token
/// account for the fee vault's own mint, when the fee vault decodes.
pub open spec fn withdraw_fee_vault_derivation(a: WithdrawAccounts) -> Option<Address> {
    match token_account_of(a.fee_vault.data@) {
        Some(fv) => associated_token_address_of(a.config.key@, fv.mint@),
        None => None,
    }
}

/// The outcome of `WithdrawFees`: each check in turn, the first that fails naming the error.
pub open spec fn withdraw_outcome(
    a: WithdrawAccounts,
    amount: u64,
    config: Option<(Address, u8)>,
    fee_vault_ata: Option<Address>,
) -> Result<WithdrawEffects, EscrowError> {
    if !a.fee_collector.is_signer {
        Err(EscrowError::InvalidSigner)
    } else if !a.fee_vault.is_writable || !a.destination.is_writable {
        Err(EscrowError::InvalidAccountData)
    } else if !derived_is(config, a.config.key) {
        Err(EscrowError::InvalidConfigPda)
    } else {
        match parse_config(a.config.data@) {
            None => Err(EscrowError::InvalidConfigState),
            Some(cs) => if cs.v != CONFIG_VERSION || cs.bump != bump_of(config) {
                Err(EscrowError::InvalidConfigState)
            } else if cs.authority != a.fee_collector.key || cs.fee_collector
                != a.fee_collector.key {
                Err(EscrowError::InvalidSigner)
            } else {
                match token_account_of(a.fee_vault.data@) {
                    None => Err(EscrowError::InvalidTokenAccount),
                    Some(fv) => if fv.owner != a.config.key {
                        Err(EscrowError::InvalidTokenAccount)
                    } else if fee_vault_ata != Some(a.fee_vault.key) {
                        Err(EscrowError::InvalidFeeVaultAta)
                    } else {
                        match token_account_of(a.destination.data@) {
                            None => Err(EscrowError::InvalidTokenAccount),
                            Some(dt) => if dt.mint != fv.mint || dt.owner != cs.fee_collector {
                                Err(EscrowError::InvalidTokenAccount)
                            } else if resolved_withdrawal(amount, fv.amount) > fv.amount {
                                Err(EscrowError::WithdrawalExceedsBalance)
                            } else {
                                let w = resolved_withdrawal(amount, fv.amount);
                                Ok(
                                    WithdrawEffects {
                                        config_bump: cs.bump,
                                        transfer: if w == 0 {
                                            None
                                        } else {
                                            Some(w)
                                        },
                                    },
                                )
                            },
                        }
                    },
                }
            },
        }
    }
}

/// `WithdrawFees` against given derivations.
pub fn withdraw_fees_with(
    a: &WithdrawAccounts,
    amount: u64,
    config: Option<(Address, u8)>,
    fee_vault_ata: Option<Address>,
) -> (r: Result<WithdrawEffects, EscrowError>)
    ensures
        r == withdraw_outcome(*a, amount, config, fee_vault_ata),
{
    if let Err(e) = assert_signer(&a.fee_collector) {
        return Err(e);
    }
    if let Err(e) = assert_writable(&a.fee_vault) {
        return Err(e);
    }
    if let Err(e) = assert_writable(&a.destination) {
        return Err(e);
    }
    let bump = match expect_derived(config, &a.config.key, EscrowError::InvalidConfigPda) {
        Ok(b) => b,
        Err(e) => return Err(e),
    };
    let cs = match sound_config(&a.config.data, bump) {
        Ok(cs) => cs,
        Err(e) => return Err(e),
    };
    if !keys_equal(&cs.authority, &a.fee_collector.key) {
        return Err(EscrowError::InvalidSigner);
    }
    if !keys_equal(&cs.fee_collector, &a.fee_collector.key) {
        return Err(EscrowError::InvalidSigner);
    }
    let fv = match unpack_token_account(a.fee_vault.data.as_slice()) {
        Some(t) => t,
        None => return Err(EscrowError::InvalidTokenAccount),
    };
    if !keys_equal(&fv.owner, &a.config.key) {
        return Err(EscrowError::InvalidTokenAccount);
    }
    match fee_vault_ata {
        Some(k) => {
            if !keys_equal(&k, &a.fee_vault.key) {
                return Err(EscrowError::InvalidFeeVaultAta);
            }
        },
        None => return Err(EscrowError::InvalidFeeVaultAta),
    }
    let dt = match unpack_token_account(a.destination.data.as_slice()) {
        Some(t) => t,
        None => return Err(EscrowError::InvalidTokenAccount),
    };
    if !keys_equal(&dt.mint, &fv.mint) {
        return Err(EscrowError::InvalidTokenAccount);
    }
    if !keys_equal(&dt.owner, &cs.fee_collector) {
        return Err(EscrowError::InvalidTokenAccount);
    }
    let balance = fv.amount;
    let withdraw_amount = if amount == 0 {
        balance
    } else {
        amount
    };
    if withdraw_amount > balance {
        return Err(EscrowError::WithdrawalExceedsBalance);
    }
    let transfer = if withdraw_amount == 0 {
        None
    } else {
        Some(withdraw_amount)
    };
    Ok(WithdrawEffects { config_bump: cs.bump, transfer })
}

/// `WithdrawFees`: derives the configuration and fee-vault addresses and
/// decides as `withdraw_fees_with` does.
pub fn process_withdraw_fees(program_id: &Address, a: &WithdrawAccounts, amount: u64) -> (r: Result<
    WithdrawEffects,
    EscrowError,
>)
    ensures
        r == withdraw_outcome(
            *a,
            amount,
            config_derivation(*program_id),
            withdraw_fee_vault_derivation(*a),
        ),
{
    let config = config_pda(program_id);
    let fee_vault_ata = match unpack_token_account(a.fee_vault.data.as_slice()) {
        Some(fv) => associated_token_address(&a.config.key, &fv.mint),
        None => None,
    };
    withdraw_fees_with(a, amount, config, fee_vault_ata)
}

} // verus!
