use vstd::prelude::*;

use crate::config::{spec_fee, Config};
use crate::crypto::{ed25519_valid, verify_signature};
use crate::errors::TradeEscrowError;
use crate::escrow::{Escrow, EscrowStatus};
use crate::events::EscrowLocked;
use crate::identity::{all_zero, Identity, Signature};
use crate::messages::{ask_message, spec_ask_message};

verus! {

/// Everything `lock` produces: the new escrow record, the fee it charged,
/// the deposit the host ledger must move from the buyer into the new vault,
/// and the audit event.
pub struct LockOutcome {
    pub escrow: Escrow,
    pub fee: u64,
    /// `amount + fee`: what leaves the buyer's custody and fills the vault.
    pub deposit: u64,
    pub event: EscrowLocked,
}

/// What `lock` deposits into the vault: the principal plus the protocol fee.
pub open spec fn lock_deposit(fee_bps: u16, amount: u64) -> int {
    amount + spec_fee(fee_bps, amount)
}

/// The ask message a `lock` call checks the seller's signature against:
/// bound to the exact trade parameters, with `deadline = now + offset` and
/// `nonce = now`.
pub open spec fn spec_lock_message(
    seller: Identity,
    asset_id: u64,
    amount: u64,
    deadline_offset: i64,
    now: i64,
) -> Seq<u8> {
    spec_ask_message(asset_id, seller, amount, (now + deadline_offset) as i64, now as u64)
}

/// All of `lock`'s preconditions at once: exactly when a lock call succeeds.
pub open spec fn lock_accepts(
    config: Config,
    seller: Identity,
    asset_id: u64,
    amount: u64,
    price_max: u64,
    ask_signature: Signature,
    deadline_offset: i64,
    now: i64,
    buyer_balance: u64,
) -> bool {
    &&& !config.paused
    &&& 0 < deadline_offset <= 600
    &&& !all_zero(ask_signature@)
    &&& ed25519_valid(
        seller@,
        spec_lock_message(seller, asset_id, amount, deadline_offset, now),
        ask_signature@,
    )
    &&& amount <= price_max
    &&& buyer_balance >= lock_deposit(config.fee_bps, amount)
}

/// Which error a failing `lock` call reports: the first check that fails, in
/// the order the checks run.
pub open spec fn lock_error(
    config: Config,
    seller: Identity,
    asset_id: u64,
    amount: u64,
    price_max: u64,
    ask_signature: Signature,
    deadline_offset: i64,
    now: i64,
    buyer_balance: u64,
) -> TradeEscrowError {
    if config.paused {
        TradeEscrowError::ContractPaused
    } else if !(0 < deadline_offset <= 600) {
        TradeEscrowError::InvalidDeadline
    } else if all_zero(ask_signature@) {
        TradeEscrowError::InvalidSignatureFormat
    } else if !ed25519_valid(
        seller@,
        spec_lock_message(seller, asset_id, amount, deadline_offset, now),
        ask_signature@,
    ) {
        TradeEscrowError::InvalidAskSignature
    } else if amount > price_max {
        TradeEscrowError::PriceExceedsMaximum
    } else {
        TradeEscrowError::InsufficientFunds
    }
}

/// Lock funds in escrow for a trade. The only creation path for an escrow.
///
/// Rejects, in order: a paused protocol; a deadline offset outside (0, 600]
/// seconds; an all-zero ask signature (before any cryptographic check); an
/// ask signature that does not verify for the seller over the exact trade
/// parameters; a principal over the buyer's price cap; and a buyer custody
/// balance below `amount + fee`. On success the new escrow is `Active`, its
/// deadline is `now + deadline_offset`, its nonce is `now`, and the host
/// ledger must move `deposit == amount + fee` from the buyer into the vault.
pub fn lock(
    config: &Config,
    buyer: Identity,
    seller: Identity,
    asset_id: u64,
    amount: u64,
    price_max: u64,
    ask_signature: &Signature,
    deadline_offset: i64,
    now: i64,
    buyer_balance: u64,
) -> (r: Result<LockOutcome, TradeEscrowError>)
    requires
        config.wf(),
        0 <= now,
        now + 600 <= i64::MAX,
        amount + spec_fee(config.fee_bps, amount) <= u64::MAX,
    ensures
        r is Ok <==> lock_accepts(
            *config,
            seller,
            asset_id,
            amount,
            price_max,
            *ask_signature,
            deadline_offset,
            now,
            buyer_balance,
        ),
        r is Err ==> r == Err::<LockOutcome, _>(
            lock_error(
                *config,
                seller,
                asset_id,
                amount,
                price_max,
                *ask_signature,
                deadline_offset,
                now,
                buyer_balance,
            ),
        ),
        r matches Ok(o) ==> {
            &&& o.escrow == (Escrow {
                buyer,
                seller,
                asset_id,
                amount,
                deadline: (now + deadline_offset) as i64,
                status: EscrowStatus::Active,
                nonce: now as u64,
            })
            &&& o.fee == spec_fee(config.fee_bps, amount)
            &&& o.deposit == lock_deposit(config.fee_bps, amount)
            &&& o.event == (EscrowLocked {
                escrow_id: o.escrow.spec_id(),
                buyer,
                seller,
                asset_id,
                amount,
                deadline: o.escrow.deadline,
            })
        },
{
    if config.paused {
        return Err(TradeEscrowError::ContractPaused);
    }
    if !(deadline_offset > 0 && deadline_offset <= 600) {
        return Err(TradeEscrowError::InvalidDeadline);
    }
    let deadline = now + deadline_offset;
    let nonce = now as u64;
    let message = ask_message(asset_id, &seller, amount, deadline, nonce);
    if ask_signature.is_zero() {
        return Err(TradeEscrowError::InvalidSignatureFormat);
    }
    if !verify_signature(ask_signature, &message, &seller) {
        return Err(TradeEscrowError::InvalidAskSignature);
    }
    if amount > price_max {
        return Err(TradeEscrowError::PriceExceedsMaximum);
    }
    let fee = config.calculate_fee(amount);
    let total = amount + fee;
    if buyer_balance < total {
        return Err(TradeEscrowError::InsufficientFunds);
    }
    let escrow = Escrow { buyer, seller, asset_id, amount, deadline, status: EscrowStatus::Active, nonce };
    let event = EscrowLocked {
        escrow_id: escrow.id(),
        buyer,
        seller,
        asset_id,
        amount,
        deadline,
    };
    Ok(LockOutcome { escrow, fee, deposit: total, event })
}

} // verus!
