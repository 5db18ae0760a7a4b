use ln_usdt_escrow::accounts::AccountView;
use ln_usdt_escrow::config::{
    process_init_config, process_set_config, process_withdraw_fees, withdraw_fees_with,
    InitConfigAccounts, SetConfigAccounts, WithdrawAccounts,
};
use ln_usdt_escrow::error::EscrowError;
use ln_usdt_escrow::escrow::{
    claim_with, init_with, process_claim, process_init, process_refund, refund_with,
    ClaimAccounts, ClaimDerivation, InitAccounts, InitDerivation, InitEffects, RefundAccounts,
};
use ln_usdt_escrow::state::{ConfigState, EscrowState, EscrowStatus};
use solana_program::hash::hash;
use solana_program::program_option::COption;
use solana_program::program_pack::Pack;
use solana_program::pubkey::Pubkey;
use ln_usdt_escrow::address::{
    associated_token_address, ASSOCIATED_TOKEN_PROGRAM_ID, TOKEN_PROGRAM_ID,
};
use spl_associated_token_account::get_associated_token_address;
use spl_token::state::{Account, AccountState};

const PROGRAM: [u8; 32] = [7u8; 32];
const PAYER: [u8; 32] = [0x11u8; 32];
const RECIPIENT: [u8; 32] = [0x12u8; 32];
const REFUNDER: [u8; 32] = [0x13u8; 32];
const COLLECTOR: [u8; 32] = [0x14u8; 32];
const MINT: [u8; 32] = [0x15u8; 32];
const PREIMAGE: [u8; 32] = [0x42u8; 32];
const DEADLINE: i64 = 1_700_000_000;

fn pk(k: [u8; 32]) -> Pubkey {
    Pubkey::new_from_array(k)
}

fn view(key: [u8; 32], is_signer: bool, is_writable: bool, data: Vec<u8>) -> AccountView {
    AccountView { key, is_signer, is_writable, data }
}

fn token(mint: [u8; 32], owner: [u8; 32], amount: u64) -> Vec<u8> {
    let acc = Account {
        mint: pk(mint),
        owner: pk(owner),
        amount,
        delegate: COption::None,
        state: AccountState::Initialized,
        is_native: COption::None,
        delegated_amount: 0,
        close_authority: COption::None,
    };
    let mut buf = vec![0u8; Account::LEN];
    Account::pack(acc, &mut buf).unwrap();
    buf
}

fn payment_hash() -> [u8; 32] {
    hash(&PREIMAGE).to_bytes()
}

fn config_addr() -> ([u8; 32], u8) {
    let (k, b) = Pubkey::find_program_address(&[b"config"], &pk(PROGRAM));
    (k.to_bytes(), b)
}

fn escrow_addr() -> ([u8; 32], u8) {
    let (k, b) = Pubkey::find_program_address(&[b"escrow", &payment_hash()], &pk(PROGRAM));
    (k.to_bytes(), b)
}

fn ata(wallet: [u8; 32]) -> [u8; 32] {
    get_associated_token_address(&pk(wallet), &pk(MINT)).to_bytes()
}

fn config_data(fee_bps: u16) -> Vec<u8> {
    ConfigState { v: 1, authority: COLLECTOR, fee_collector: COLLECTOR, fee_bps, bump: config_addr().1 }
        .encode()
}

fn init_accounts(escrow_data: Vec<u8>, balance: u64, fee_bps: u16) -> InitAccounts {
    InitAccounts {
        payer: view(PAYER, true, true, vec![]),
        payer_token: view([0x21u8; 32], false, true, token(MINT, PAYER, balance)),
        escrow: view(escrow_addr().0, false, true, escrow_data),
        vault: view(ata(escrow_addr().0), false, true, vec![]),
        mint: MINT,
        config: view(config_addr().0, false, false, config_data(fee_bps)),
        fee_vault: view(ata(config_addr().0), false, true, vec![]),
    }
}

fn init(a: &InitAccounts, amount: u64) -> Result<InitEffects, EscrowError> {
    process_init(&PROGRAM, a, payment_hash(), RECIPIENT, REFUNDER, DEADLINE, amount)
}

fn created() -> InitEffects {
    init(&init_accounts(vec![], 2_000_000, 100), 1_000_000).unwrap()
}

fn claim_accounts(record: &EscrowState, deposit: u64) -> ClaimAccounts {
    ClaimAccounts {
        recipient: view(RECIPIENT, true, false, vec![]),
        escrow: view(escrow_addr().0, false, true, record.encode()),
        vault: view(ata(escrow_addr().0), false, true, token(MINT, escrow_addr().0, deposit)),
        recipient_token: view([0x31u8; 32], false, true, token(MINT, RECIPIENT, 0)),
        fee_vault: view(ata(config_addr().0), false, true, token(MINT, config_addr().0, 0)),
    }
}

fn refund_accounts(record: &EscrowState, deposit: u64) -> RefundAccounts {
    RefundAccounts {
        refund: view(REFUNDER, true, false, vec![]),
        escrow: view(escrow_addr().0, false, true, record.encode()),
        vault: view(ata(escrow_addr().0), false, true, token(MINT, escrow_addr().0, deposit)),
        refund_token: view([0x32u8; 32], false, true, token(MINT, REFUNDER, 0)),
    }
}

fn withdraw_accounts(balance: u64) -> WithdrawAccounts {
    WithdrawAccounts {
        fee_collector: view(COLLECTOR, true, false, vec![]),
        config: view(config_addr().0, false, false, config_data(100)),
        fee_vault: view(ata(config_addr().0), false, true, token(MINT, config_addr().0, balance)),
        destination: view([0x33u8; 32], false, true, token(MINT, COLLECTOR, 0)),
    }
}

#[test]
fn init_takes_amount_plus_fee() {
    let e = created();
    assert_eq!(e.deposit, 1_010_000);
    assert!(e.create_fee_vault);
    assert!(e.create_vault);
    assert_eq!(e.escrow_bump, escrow_addr().1);
    let r = e.record;
    assert_eq!(r.status, EscrowStatus::Active);
    assert_eq!(r.v, 2);
    assert_eq!(r.net_amount, 1_000_000);
    assert_eq!(r.fee_amount, 10_000);
    assert_eq!(r.fee_bps, 100);
    assert_eq!(r.fee_collector, COLLECTOR);
    assert_eq!(r.payment_hash, payment_hash());
    assert_eq!(r.recipient, RECIPIENT);
    assert_eq!(r.refund, REFUNDER);
    assert_eq!(r.refund_after, DEADLINE);
    assert_eq!(r.mint, MINT);
    assert_eq!(r.vault, ata(escrow_addr().0));
    assert_eq!(r.bump, escrow_addr().1);
}

#[test]
fn scenario_claim_pays_recipient_and_fee_vault() {
    let e = created();
    let c = process_claim(&PROGRAM, &claim_accounts(&e.record, e.deposit), PREIMAGE).unwrap();
    assert_eq!(c.payout, 1_000_000);
    assert_eq!(c.fee, 10_000);
    assert_eq!(c.payout + c.fee, e.deposit);
    assert_eq!(c.escrow_bump, escrow_addr().1);
    assert_eq!(c.record.status, EscrowStatus::Claimed);
    assert_eq!(c.record.net_amount, 0);
    assert_eq!(c.record.fee_amount, 0);
    assert_eq!(c.record.payment_hash, payment_hash());
}

#[test]
fn scenario_refund_at_deadline() {
    let e = created();
    let a = refund_accounts(&e.record, e.deposit);
    assert!(matches!(process_refund(&PROGRAM, &a, DEADLINE - 1), Err(EscrowError::TooEarly)));
    let r = process_refund(&PROGRAM, &a, DEADLINE).unwrap();
    assert_eq!(r.payout, 1_010_000);
    assert_eq!(r.record.status, EscrowStatus::Refunded);
    assert_eq!(r.record.net_amount, 0);
    assert_eq!(r.record.fee_amount, 0);
    let later = process_refund(&PROGRAM, &a, DEADLINE + 86_400).unwrap();
    assert_eq!(later.payout, 1_010_000);
}

#[test]
fn duplicate_init_is_rejected() {
    let e = created();
    let again = init_accounts(e.record.encode(), 2_000_000, 100);
    assert!(matches!(init(&again, 1_000_000), Err(EscrowError::AlreadyInitialized)));
    assert!(matches!(init(&again, 5), Err(EscrowError::AlreadyInitialized)));
}

#[test]
fn wrong_preimage_is_rejected() {
    let e = created();
    let a = claim_accounts(&e.record, e.deposit);
    assert!(matches!(process_claim(&PROGRAM, &a, [0x43u8; 32]), Err(EscrowError::InvalidPreimage)));
    assert!(matches!(process_claim(&PROGRAM, &a, payment_hash()), Err(EscrowError::InvalidPreimage)));
    assert!(process_claim(&PROGRAM, &a, PREIMAGE).is_ok());
}

#[test]
fn claim_with_takes_the_digest() {
    let e = created();
    let a = claim_accounts(&e.record, e.deposit);
    let (cfg, cfg_bump) = config_addr();
    let d = ClaimDerivation {
        digest: payment_hash(),
        escrow_pda: Some(escrow_addr()),
        config_pda: Some((cfg, cfg_bump)),
        fee_vault_ata: Some(ata(cfg)),
    };
    assert_eq!(claim_with(&a, &d).unwrap().payout, 1_000_000);
    let bad = ClaimDerivation { digest: PREIMAGE, ..d };
    assert!(matches!(claim_with(&a, &bad), Err(EscrowError::InvalidPreimage)));
    let no_pda = ClaimDerivation { escrow_pda: None, ..d };
    assert!(matches!(claim_with(&a, &no_pda), Err(EscrowError::InvalidEscrowPda)));
}

#[test]
fn only_one_settlement() {
    let e = created();
    let claimed = process_claim(&PROGRAM, &claim_accounts(&e.record, e.deposit), PREIMAGE).unwrap();
    let again = claim_accounts(&claimed.record, 0);
    assert!(matches!(process_claim(&PROGRAM, &again, PREIMAGE), Err(EscrowError::NotActive)));
    let refund = refund_accounts(&claimed.record, 0);
    assert!(matches!(process_refund(&PROGRAM, &refund, DEADLINE), Err(EscrowError::NotActive)));
    let refunded = process_refund(&PROGRAM, &refund_accounts(&e.record, e.deposit), DEADLINE).unwrap();
    let after = claim_accounts(&refunded.record, 0);
    assert!(matches!(process_claim(&PROGRAM, &after, PREIMAGE), Err(EscrowError::NotActive)));
}

#[test]
fn claim_checks_signer_and_accounts() {
    let e = created();
    let mut a = claim_accounts(&e.record, e.deposit);
    a.recipient.is_signer = false;
    assert!(matches!(process_claim(&PROGRAM, &a, PREIMAGE), Err(EscrowError::InvalidSigner)));
    let mut a = claim_accounts(&e.record, e.deposit);
    a.recipient.key = REFUNDER;
    assert!(matches!(process_claim(&PROGRAM, &a, PREIMAGE), Err(EscrowError::InvalidSigner)));
    let mut a = claim_accounts(&e.record, e.deposit);
    a.vault.key = [0x99u8; 32];
    assert!(matches!(process_claim(&PROGRAM, &a, PREIMAGE), Err(EscrowError::InvalidVaultAta)));
    let mut a = claim_accounts(&e.record, e.deposit);
    a.fee_vault.key = [0x99u8; 32];
    assert!(matches!(process_claim(&PROGRAM, &a, PREIMAGE), Err(EscrowError::InvalidFeeVaultAta)));
    let mut a = claim_accounts(&e.record, e.deposit);
    a.recipient_token.data = token(MINT, PAYER, 0);
    assert!(matches!(process_claim(&PROGRAM, &a, PREIMAGE), Err(EscrowError::InvalidTokenAccount)));
    let mut a = claim_accounts(&e.record, e.deposit);
    a.escrow.is_writable = false;
    assert!(matches!(process_claim(&PROGRAM, &a, PREIMAGE), Err(EscrowError::InvalidAccountData)));
    let mut a = claim_accounts(&e.record, e.deposit);
    a.escrow.key = [0x98u8; 32];
    assert!(matches!(process_claim(&PROGRAM, &a, PREIMAGE), Err(EscrowError::InvalidEscrowPda)));
}

#[test]
fn refund_checks_signer() {
    let e = created();
    let mut a = refund_accounts(&e.record, e.deposit);
    a.refund.key = RECIPIENT;
    assert!(matches!(process_refund(&PROGRAM, &a, DEADLINE), Err(EscrowError::InvalidSigner)));
    let mut a = refund_accounts(&e.record, e.deposit);
    a.vault.data = token(MINT, PAYER, e.deposit);
    assert!(matches!(process_refund(&PROGRAM, &a, DEADLINE), Err(EscrowError::InvalidTokenAccount)));
}

#[test]
fn init_rejects_bad_accounts() {
    let mut a = init_accounts(vec![], 2_000_000, 100);
    a.payer.is_signer = false;
    assert!(matches!(init(&a, 1_000_000), Err(EscrowError::InvalidSigner)));
    let mut a = init_accounts(vec![], 2_000_000, 100);
    a.vault.is_writable = false;
    assert!(matches!(init(&a, 1_000_000), Err(EscrowError::InvalidAccountData)));
    let mut a = init_accounts(vec![], 2_000_000, 100);
    a.escrow.key = [0x97u8; 32];
    assert!(matches!(init(&a, 1_000_000), Err(EscrowError::InvalidEscrowPda)));
    let mut a = init_accounts(vec![], 2_000_000, 100);
    a.config.key = [0x96u8; 32];
    assert!(matches!(init(&a, 1_000_000), Err(EscrowError::InvalidConfigPda)));
    let mut a = init_accounts(vec![], 2_000_000, 100);
    a.config.data = vec![];
    assert!(matches!(init(&a, 1_000_000), Err(EscrowError::InvalidConfigState)));
    let a = init_accounts(vec![], 2_000_000, 2501);
    assert!(matches!(init(&a, 1_000_000), Err(EscrowError::FeeTooHigh)));
    let mut a = init_accounts(vec![], 2_000_000, 100);
    a.vault.key = [0x95u8; 32];
    assert!(matches!(init(&a, 1_000_000), Err(EscrowError::InvalidVaultAta)));
    let mut a = init_accounts(vec![], 2_000_000, 100);
    a.fee_vault.key = ata(PAYER);
    assert!(matches!(init(&a, 1_000_000), Err(EscrowError::InvalidFeeVaultAta)));
    let mut a = init_accounts(vec![], 2_000_000, 100);
    a.payer_token.data = token(MINT, RECIPIENT, 2_000_000);
    assert!(matches!(init(&a, 1_000_000), Err(EscrowError::InvalidTokenAccount)));
    let a = init_accounts(vec![], 1_009_999, 100);
    assert!(matches!(init(&a, 1_000_000), Err(EscrowError::InsufficientFunds)));
    let a = init_accounts(vec![], 1_010_000, 100);
    assert!(init(&a, 1_000_000).is_ok());
    let a = init_accounts(vec![], u64::MAX, 100);
    assert!(matches!(init(&a, u64::MAX - 10), Err(EscrowError::FeeOverflow)));
}

#[test]
fn init_config_rules() {
    let (cfg, bump) = config_addr();
    let a = InitConfigAccounts { payer: view(COLLECTOR, true, true, vec![]), config: view(cfg, false, true, vec![]) };
    let c = process_init_config(&PROGRAM, &a, COLLECTOR, 2500).unwrap();
    assert_eq!(c.v, 1);
    assert_eq!(c.authority, COLLECTOR);
    assert_eq!(c.fee_collector, COLLECTOR);
    assert_eq!(c.fee_bps, 2500);
    assert_eq!(c.bump, bump);
    assert!(matches!(process_init_config(&PROGRAM, &a, COLLECTOR, 2501), Err(EscrowError::FeeTooHigh)));
    assert!(matches!(process_init_config(&PROGRAM, &a, PAYER, 10), Err(EscrowError::InvalidSigner)));
    let taken = InitConfigAccounts { payer: view(COLLECTOR, true, true, vec![]), config: view(cfg, false, true, c.encode()) };
    assert!(matches!(process_init_config(&PROGRAM, &taken, COLLECTOR, 10), Err(EscrowError::AlreadyInitialized)));
    let wrong = InitConfigAccounts { payer: view(COLLECTOR, true, true, vec![]), config: view(PAYER, false, true, vec![]) };
    assert!(matches!(process_init_config(&PROGRAM, &wrong, COLLECTOR, 10), Err(EscrowError::InvalidConfigPda)));
}

#[test]
fn set_config_rules() {
    let (cfg, _) = config_addr();
    let a = SetConfigAccounts { authority: view(COLLECTOR, true, false, vec![]), config: view(cfg, false, true, config_data(100)) };
    let c = process_set_config(&PROGRAM, &a, COLLECTOR, 0).unwrap();
    assert_eq!(c.fee_bps, 0);
    assert_eq!(c.authority, COLLECTOR);
    assert!(matches!(process_set_config(&PROGRAM, &a, COLLECTOR, u16::MAX), Err(EscrowError::FeeTooHigh)));
    let other = SetConfigAccounts { authority: view(PAYER, true, false, vec![]), config: view(cfg, false, true, config_data(100)) };
    assert!(matches!(process_set_config(&PROGRAM, &other, PAYER, 10), Err(EscrowError::InvalidSigner)));
    let mut stale = config_data(100);
    stale[0] = 9;
    let bad = SetConfigAccounts { authority: view(COLLECTOR, true, false, vec![]), config: view(cfg, false, true, stale) };
    assert!(matches!(process_set_config(&PROGRAM, &bad, COLLECTOR, 10), Err(EscrowError::InvalidConfigState)));
}

#[test]
fn withdraw_zero_takes_everything() {
    let w = process_withdraw_fees(&PROGRAM, &withdraw_accounts(10_000), 0).unwrap();
    assert_eq!(w.transfer, Some(10_000));
    assert_eq!(w.config_bump, config_addr().1);
    let part = process_withdraw_fees(&PROGRAM, &withdraw_accounts(10_000), 4_000).unwrap();
    assert_eq!(part.transfer, Some(4_000));
}

#[test]
fn withdraw_more_than_balance_fails() {
    assert!(matches!(
        process_withdraw_fees(&PROGRAM, &withdraw_accounts(10_000), 10_001),
        Err(EscrowError::WithdrawalExceedsBalance)
    ));
}

#[test]
fn withdraw_from_empty_vault_is_a_no_op() {
    let w = process_withdraw_fees(&PROGRAM, &withdraw_accounts(0), 0).unwrap();
    assert_eq!(w.transfer, None);
}

#[test]
fn withdraw_checks_roles() {
    let mut a = withdraw_accounts(10);
    a.fee_collector.key = PAYER;
    assert!(matches!(process_withdraw_fees(&PROGRAM, &a, 0), Err(EscrowError::InvalidSigner)));
    let mut a = withdraw_accounts(10);
    a.destination.data = token(MINT, PAYER, 0);
    assert!(matches!(process_withdraw_fees(&PROGRAM, &a, 0), Err(EscrowError::InvalidTokenAccount)));
    let mut a = withdraw_accounts(10);
    a.fee_vault.key = [0x94u8; 32];
    assert!(matches!(process_withdraw_fees(&PROGRAM, &a, 0), Err(EscrowError::InvalidFeeVaultAta)));
}

#[test]
fn uninitialized_token_account_is_rejected() {
    let mut a = init_accounts(vec![], 2_000_000, 100);
    let mut data = token(MINT, PAYER, 2_000_000);
    data[108] = 0;
    a.payer_token.data = data;
    assert!(matches!(init(&a, 1_000_000), Err(EscrowError::InvalidTokenAccount)));
    let mut a = init_accounts(vec![], 2_000_000, 100);
    a.payer_token.data.pop();
    assert!(matches!(init(&a, 1_000_000), Err(EscrowError::InvalidTokenAccount)));
}

#[test]
fn existing_vaults_are_not_recreated() {
    let mut a = init_accounts(vec![], 2_000_000, 100);
    a.vault.data = token(MINT, escrow_addr().0, 0);
    a.fee_vault.data = token(MINT, config_addr().0, 0);
    let e = init(&a, 1_000_000).unwrap();
    assert!(!e.create_vault);
    assert!(!e.create_fee_vault);
    assert_eq!(e.deposit, 1_010_000);
}

#[test]
fn zero_fee_rate_takes_no_fee() {
    let e = init(&init_accounts(vec![], 500, 0), 500).unwrap();
    assert_eq!(e.deposit, 500);
    assert_eq!(e.record.fee_amount, 0);
    let c = process_claim(&PROGRAM, &claim_accounts(&e.record, e.deposit), PREIMAGE).unwrap();
    assert_eq!(c.payout, 500);
    assert_eq!(c.fee, 0);
}

#[test]
fn the_with_functions_take_derivations_as_given() {
    let a = init_accounts(vec![], 2_000_000, 100);
    let d = InitDerivation {
        escrow_pda: Some(escrow_addr()),
        config_pda: Some(config_addr()),
        vault_ata: Some(ata(escrow_addr().0)),
        fee_vault_ata: Some(ata(config_addr().0)),
    };
    let e = init_with(&a, payment_hash(), RECIPIENT, REFUNDER, DEADLINE, 1_000_000, &d).unwrap();
    assert_eq!(e.deposit, 1_010_000);
    let off = InitDerivation { config_pda: Some((config_addr().0, config_addr().1.wrapping_add(1))), ..d };
    assert!(matches!(
        init_with(&a, payment_hash(), RECIPIENT, REFUNDER, DEADLINE, 1_000_000, &off),
        Err(EscrowError::InvalidConfigState)
    ));

    let no_vault = InitDerivation { vault_ata: None, ..d };
    assert!(matches!(
        init_with(&a, payment_hash(), RECIPIENT, REFUNDER, DEADLINE, 1_000_000, &no_vault),
        Err(EscrowError::InvalidVaultAta)
    ));
    let no_fee_vault = InitDerivation { fee_vault_ata: None, ..d };
    assert!(matches!(
        init_with(&a, payment_hash(), RECIPIENT, REFUNDER, DEADLINE, 1_000_000, &no_fee_vault),
        Err(EscrowError::InvalidFeeVaultAta)
    ));

    let r = refund_accounts(&e.record, e.deposit);
    assert_eq!(refund_with(&r, DEADLINE, Some(escrow_addr())).unwrap().payout, 1_010_000);
    assert!(matches!(refund_with(&r, DEADLINE, None), Err(EscrowError::InvalidEscrowPda)));

    let w = withdraw_accounts(77);
    let got = withdraw_fees_with(&w, 0, Some(config_addr()), Some(ata(config_addr().0))).unwrap();
    assert_eq!(got.transfer, Some(77));
    assert!(matches!(
        withdraw_fees_with(&w, 0, Some(config_addr()), None),
        Err(EscrowError::InvalidFeeVaultAta)
    ));
}

#[test]
fn associated_token_address_agrees_with_the_token_programs() {
    assert_eq!(TOKEN_PROGRAM_ID, spl_token::id().to_bytes());
    assert_eq!(ASSOCIATED_TOKEN_PROGRAM_ID, spl_associated_token_account::id().to_bytes());
    for wallet in [PAYER, escrow_addr().0, config_addr().0] {
        assert_eq!(associated_token_address(&wallet, &MINT), Some(ata(wallet)));
        assert_ne!(associated_token_address(&wallet, &MINT), Some(wallet));
    }
}
