use ed25519_dalek::{Signer, SigningKey};

use trade_escrow::admin::{pause, unpause, update_oracles};
use trade_escrow::config::Config;
use trade_escrow::crypto::verify_signature;
use trade_escrow::errors::TradeEscrowError;
use trade_escrow::escrow::{Escrow, EscrowStatus};
use trade_escrow::events::{ConfigChange, RefundReason};
use trade_escrow::identity::{Identity, Signature};
use trade_escrow::initialize::initialize;
use trade_escrow::lock::{lock, LockOutcome};
use trade_escrow::messages::{ask_message, settlement_message};
use trade_escrow::refund::refund;
use trade_escrow::settle::{settle, SettleOutcome};

fn keypair(seed: u8) -> (SigningKey, Identity) {
    let sk = SigningKey::from_bytes(&[seed; 32]);
    let id = Identity::new(sk.verifying_key().to_bytes());
    (sk, id)
}

fn sign(sk: &SigningKey, msg: &[u8]) -> Signature {
    Signature::new(sk.sign(msg).to_bytes())
}

struct Setup {
    oracle_sks: [SigningKey; 3],
    config: Config,
    buyer: Identity,
    seller_sk: SigningKey,
    seller: Identity,
}

fn setup() -> Setup {
    let (o0_sk, o0) = keypair(10);
    let (o1_sk, o1) = keypair(11);
    let (o2_sk, o2) = keypair(12);
    let (_, guardian) = keypair(20);
    let (_, admin) = keypair(21);
    let (_, fee_recipient) = keypair(22);
    let (_, buyer) = keypair(30);
    let (seller_sk, seller) = keypair(31);
    let config = initialize([o0, o1, o2], guardian, admin, fee_recipient);
    Setup { oracle_sks: [o0_sk, o1_sk, o2_sk], config, buyer, seller_sk, seller }
}

/// Lock with a valid ask signature over the exact trade parameters.
fn lock_standard(s: &Setup, deadline_offset: i64) -> Result<LockOutcome, TradeEscrowError> {
    let now: i64 = 1000;
    let deadline = now + deadline_offset;
    let msg = ask_message(42, &s.seller, 1000, deadline, now as u64);
    let sig = sign(&s.seller_sk, &msg);
    lock(&s.config, s.buyer, s.seller, 42, 1000, 1000, &sig, deadline_offset, now, 2000)
}

fn settle_with(
    s: &Setup,
    escrow: &mut Escrow,
    signer_indices: &[usize],
    now: i64,
) -> Result<SettleOutcome, TradeEscrowError> {
    let msg = settlement_message(escrow.asset_id, &escrow.buyer, &escrow.seller, escrow.nonce);
    let sigs: Vec<Signature> =
        signer_indices.iter().map(|&i| sign(&s.oracle_sks[i], &msg)).collect();
    settle(&s.config, escrow, &sigs, now)
}

#[test]
fn fee_is_floor_of_basis_points() {
    let s = setup();
    assert_eq!(s.config.fee_bps, 50);
    assert_eq!(s.config.calculate_fee(1000), 5);
    assert_eq!(s.config.calculate_fee(10000), 50);
    assert_eq!(s.config.calculate_fee(199), 0);
    assert_eq!(s.config.calculate_fee(0), 0);
    assert_eq!(s.config.calculate_fee(u64::MAX / 2), u64::MAX / 2 / 200);
}

#[test]
fn lock_deposits_principal_plus_fee() {
    let s = setup();
    let o = lock_standard(&s, 300).expect("lock should succeed");
    assert_eq!(o.deposit, 1005);
    assert_eq!(o.fee, 5);
    assert_eq!(o.escrow.status, EscrowStatus::Active);
    assert_eq!(o.escrow.amount, 1000);
    assert_eq!(o.escrow.deadline, 1300);
    assert_eq!(o.escrow.nonce, 1000);
    assert_eq!(o.escrow.asset_id, 42);
    assert_eq!(o.event.amount, 1000);
    assert_eq!(o.event.deadline, 1300);
}

#[test]
fn deadline_offset_bounds() {
    let s = setup();
    assert_eq!(lock_standard(&s, 601).err(), Some(TradeEscrowError::InvalidDeadline));
    assert!(lock_standard(&s, 600).is_ok());
    assert_eq!(lock_standard(&s, 0).err(), Some(TradeEscrowError::InvalidDeadline));
}

#[test]
fn lock_rejects_zero_signature_before_crypto() {
    let s = setup();
    let sig = Signature::new([0u8; 64]);
    let r = lock(&s.config, s.buyer, s.seller, 42, 1000, 1000, &sig, 300, 1000, 2000);
    assert_eq!(r.err(), Some(TradeEscrowError::InvalidSignatureFormat));
}

#[test]
fn lock_rejects_wrong_signature() {
    let s = setup();
    let sig = Signature::new([7u8; 64]);
    let r = lock(&s.config, s.buyer, s.seller, 42, 1000, 1000, &sig, 300, 1000, 2000);
    assert_eq!(r.err(), Some(TradeEscrowError::InvalidAskSignature));
}

#[test]
fn lock_binds_signature_to_parameters() {
    let s = setup();
    let now: i64 = 1000;
    // Signed for amount 1000, submitted with amount 999: must not verify.
    let msg = ask_message(42, &s.seller, 1000, now + 300, now as u64);
    let sig = sign(&s.seller_sk, &msg);
    let r = lock(&s.config, s.buyer, s.seller, 42, 999, 1000, &sig, 300, now, 2000);
    assert_eq!(r.err(), Some(TradeEscrowError::InvalidAskSignature));
}

#[test]
fn lock_rejects_price_over_cap() {
    let s = setup();
    let now: i64 = 1000;
    let msg = ask_message(42, &s.seller, 1001, now + 300, now as u64);
    let sig = sign(&s.seller_sk, &msg);
    let r = lock(&s.config, s.buyer, s.seller, 42, 1001, 1000, &sig, 300, now, 2000);
    assert_eq!(r.err(), Some(TradeEscrowError::PriceExceedsMaximum));
}

#[test]
fn lock_rejects_insufficient_custody() {
    let s = setup();
    let now: i64 = 1000;
    let msg = ask_message(42, &s.seller, 1000, now + 300, now as u64);
    let sig = sign(&s.seller_sk, &msg);
    // 1004 < amount + fee = 1005.
    let r = lock(&s.config, s.buyer, s.seller, 42, 1000, 1000, &sig, 300, now, 1004);
    assert_eq!(r.err(), Some(TradeEscrowError::InsufficientFunds));
}

#[test]
fn settle_with_two_distinct_oracles_drains_vault() {
    let s = setup();
    let o = lock_standard(&s, 300).expect("lock should succeed");
    let mut escrow = o.escrow;
    let r = settle_with(&s, &mut escrow, &[0, 2], 1200).expect("settle should succeed");
    assert_eq!(r.seller_payout, 1000);
    assert_eq!(r.fee_payout, 5);
    assert_eq!(r.seller_payout + r.fee_payout, o.deposit);
    assert_eq!(r.event.oracle_count, 2);
    assert_eq!(escrow.status, EscrowStatus::Settled);
    // The escrow is terminal: a second settle and a refund both fail with a
    // state error.
    let r2 = settle_with(&s, &mut escrow, &[0, 1], 1200);
    assert_eq!(r2.err(), Some(TradeEscrowError::CannotSettle));
    let r3 = refund(&s.config, &mut escrow, &s.buyer, 1400);
    assert_eq!(r3.err(), Some(TradeEscrowError::CannotRefund));
    assert_eq!(escrow.status, EscrowStatus::Settled);
}

#[test]
fn settle_rejects_single_signature() {
    let s = setup();
    let o = lock_standard(&s, 300).expect("lock should succeed");
    let mut escrow = o.escrow;
    let r = settle_with(&s, &mut escrow, &[1], 1200);
    assert_eq!(r.err(), Some(TradeEscrowError::InsufficientOracleSignatures));
    assert_eq!(escrow.status, EscrowStatus::Active);
}

#[test]
fn duplicate_oracle_signature_cannot_reach_quorum() {
    let s = setup();
    let o = lock_standard(&s, 300).expect("lock should succeed");
    let mut escrow = o.escrow;
    // Two copies of the same oracle's signature: one distinct key, no quorum.
    let r = settle_with(&s, &mut escrow, &[1, 1], 1200);
    assert_eq!(r.err(), Some(TradeEscrowError::InvalidOracleSignatures));
    assert_eq!(escrow.status, EscrowStatus::Active);
}

#[test]
fn duplicate_plus_distinct_signature_reaches_quorum() {
    let s = setup();
    let o = lock_standard(&s, 300).expect("lock should succeed");
    let mut escrow = o.escrow;
    // A duplicate adds nothing, but two distinct keys are still credited.
    let r = settle_with(&s, &mut escrow, &[1, 1, 2], 1200).expect("settle should succeed");
    assert_eq!(r.event.oracle_count, 2);
    assert_eq!(escrow.status, EscrowStatus::Settled);
}

#[test]
fn three_distinct_oracles_all_counted() {
    let s = setup();
    let o = lock_standard(&s, 300).expect("lock should succeed");
    let mut escrow = o.escrow;
    let r = settle_with(&s, &mut escrow, &[0, 1, 2], 1200).expect("settle should succeed");
    assert_eq!(r.event.oracle_count, 3);
}

#[test]
fn settle_rejects_non_oracle_signatures() {
    let s = setup();
    let o = lock_standard(&s, 300).expect("lock should succeed");
    let mut escrow = o.escrow;
    let msg = settlement_message(escrow.asset_id, &escrow.buyer, &escrow.seller, escrow.nonce);
    let (stranger_sk, _) = keypair(99);
    let sigs = vec![sign(&stranger_sk, &msg), sign(&stranger_sk, &msg)];
    let r = settle(&s.config, &mut escrow, &sigs, 1200);
    assert_eq!(r.err(), Some(TradeEscrowError::InvalidOracleSignatures));
}

#[test]
fn settle_rejects_expired_escrow() {
    let s = setup();
    let o = lock_standard(&s, 300).expect("lock should succeed");
    let mut escrow = o.escrow;
    let r = settle_with(&s, &mut escrow, &[0, 1], 1301);
    assert_eq!(r.err(), Some(TradeEscrowError::CannotSettle));
}

#[test]
fn refund_before_deadline_fails_after_deadline_pays_buyer() {
    let s = setup();
    let o = lock_standard(&s, 300).expect("lock should succeed");
    let mut escrow = o.escrow;
    let r = refund(&s.config, &mut escrow, &s.buyer, 1300);
    assert_eq!(r.err(), Some(TradeEscrowError::CannotRefund));
    assert_eq!(escrow.status, EscrowStatus::Active);
    let r2 = refund(&s.config, &mut escrow, &s.buyer, 1301).expect("refund should succeed");
    assert_eq!(r2.refund_amount, 1005);
    assert_eq!(r2.event.reason, RefundReason::DeadlineExpired);
    assert_eq!(escrow.status, EscrowStatus::Refunded);
}

#[test]
fn refund_requires_registered_buyer() {
    let s = setup();
    let o = lock_standard(&s, 300).expect("lock should succeed");
    let mut escrow = o.escrow;
    let (_, stranger) = keypair(77);
    let r = refund(&s.config, &mut escrow, &stranger, 1400);
    assert_eq!(r.err(), Some(TradeEscrowError::UnauthorizedRefund));
    assert_eq!(escrow.status, EscrowStatus::Active);
}

#[test]
fn pause_blocks_lock_and_settle_but_not_refund() {
    let mut s = setup();
    let o = lock_standard(&s, 300).expect("lock should succeed");
    let guardian = s.config.guardian;
    let ev = pause(&mut s.config, &guardian, 1100).expect("guardian may pause");
    assert_eq!(ev.triggered_by, guardian);
    assert!(s.config.paused);
    assert_eq!(lock_standard(&s, 300).err(), Some(TradeEscrowError::ContractPaused));
    let mut for_settle = o.escrow;
    let r = settle_with(&s, &mut for_settle, &[0, 1], 1200);
    assert_eq!(r.err(), Some(TradeEscrowError::ContractPaused));
    // Refund stays available during an emergency pause.
    let mut for_refund = o.escrow;
    let r2 = refund(&s.config, &mut for_refund, &s.buyer, 1400).expect("refund ignores pause");
    assert_eq!(r2.refund_amount, 1005);
    // Unpause restores lock and settle.
    let ev2 = unpause(&mut s.config, &guardian, 1500).expect("guardian may unpause");
    assert_eq!(ev2.change_type, ConfigChange::Unpause);
    assert!(!s.config.paused);
    assert!(lock_standard(&s, 300).is_ok());
    let mut again = o.escrow;
    assert!(settle_with(&s, &mut again, &[0, 1], 1200).is_ok());
}

#[test]
fn pause_requires_guardian() {
    let mut s = setup();
    let (_, stranger) = keypair(88);
    let r = pause(&mut s.config, &stranger, 1100);
    assert_eq!(r.err(), Some(TradeEscrowError::UnauthorizedGuardian));
    assert!(!s.config.paused);
    let r2 = unpause(&mut s.config, &stranger, 1100);
    assert_eq!(r2.err(), Some(TradeEscrowError::UnauthorizedGuardian));
}

#[test]
fn update_oracles_requires_admin() {
    let mut s = setup();
    let before = s.config.oracle_pubkeys;
    let (_, stranger) = keypair(88);
    let (_, n0) = keypair(40);
    let (_, n1) = keypair(41);
    let (_, n2) = keypair(42);
    let r = update_oracles(&mut s.config, &stranger, [n0, n1, n2], 1100);
    assert_eq!(r.err(), Some(TradeEscrowError::UnauthorizedAdmin));
    assert_eq!(s.config.oracle_pubkeys, before);
    let admin = s.config.admin;
    let ev = update_oracles(&mut s.config, &admin, [n0, n1, n2], 1200).expect("admin may rotate");
    assert_eq!(ev.change_type, ConfigChange::OracleUpdate);
    assert_eq!(s.config.oracle_pubkeys, [n0, n1, n2]);
    assert!(s.config.is_oracle(&n1));
    assert!(!s.config.is_oracle(&before[0]));
}

#[test]
fn verify_signature_accepts_real_and_rejects_tampered() {
    let (sk, id) = keypair(55);
    let msg: Vec<u8> = vec![1, 2, 3, 4];
    let sig = sign(&sk, &msg);
    assert!(verify_signature(&sig, &msg, &id));
    let other: Vec<u8> = vec![1, 2, 3, 5];
    assert!(!verify_signature(&sig, &other, &id));
    let (_, wrong_id) = keypair(56);
    assert!(!verify_signature(&sig, &msg, &wrong_id));
    assert!(!verify_signature(&Signature::new([0u8; 64]), &msg, &id));
}

#[test]
fn initialize_sets_defaults() {
    let s = setup();
    assert!(!s.config.paused);
    assert_eq!(s.config.fee_bps, 50);
    assert!(s.config.is_oracle(&s.config.oracle_pubkeys[0]));
    assert!(!s.config.is_oracle(&s.buyer));
}

#[test]
fn escrow_lifecycle_predicates() {
    let s = setup();
    let o = lock_standard(&s, 300).expect("lock should succeed");
    let e = o.escrow;
    assert!(!e.is_expired(1300));
    assert!(e.is_expired(1301));
    assert!(e.can_settle(1300));
    assert!(!e.can_settle(1301));
    assert!(!e.can_refund(1300));
    assert!(e.can_refund(1301));
}
