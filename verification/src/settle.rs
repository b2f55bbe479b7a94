use vstd::prelude::*;

use crate::config::{spec_fee, Config};
use crate::errors::TradeEscrowError;
use crate::escrow::{Escrow, EscrowStatus};
use crate::events::EscrowSettled;
use crate::identity::Signature;
use crate::lock::lock_deposit;
use crate::messages::{settlement_message, spec_settlement_message};
use crate::quorum::{count_distinct_oracle_signatures, quorum_count};

verus! {

/// Everything `settle` produces: the two payouts the host ledger must move
/// out of the vault, and the audit event.
pub struct SettleOutcome {
    /// The principal, paid from the vault to the seller.
    pub seller_payout: u64,
    /// The protocol fee, paid from the vault to the fee recipient (0 is paid
    /// to nobody).
    pub fee_payout: u64,
    pub event: EscrowSettled,
}

/// The settlement message the oracle quorum is checked against, for this
/// escrow.
pub open spec fn spec_escrow_settlement_message(e: Escrow) -> Seq<u8> {
    spec_settlement_message(e.asset_id, e.buyer, e.seller, e.nonce)
}

/// All of `settle`'s preconditions at once: exactly when a settle call
/// succeeds.
pub open spec fn settle_accepts(
    config: Config,
    e: Escrow,
    sigs: Seq<Signature>,
    now: i64,
) -> bool {
    &&& e.spec_can_settle(now)
    &&& !config.paused
    &&& sigs.len() >= 2
    &&& quorum_count(config.oracle_pubkeys, spec_escrow_settlement_message(e), sigs) >= 2
}

/// Which error a failing `settle` call reports: the first check that fails,
/// in the order the checks run.
pub open spec fn settle_error(
    config: Config,
    e: Escrow,
    sigs: Seq<Signature>,
    now: i64,
) -> TradeEscrowError {
    if !e.spec_can_settle(now) {
        TradeEscrowError::CannotSettle
    } else if config.paused {
        TradeEscrowError::ContractPaused
    } else if sigs.len() < 2 {
        TradeEscrowError::InsufficientOracleSignatures
    } else {
        TradeEscrowError::InvalidOracleSignatures
    }
}

/// Settle an active, unexpired escrow against a 2-of-3 oracle quorum.
///
/// Rejects, in order: an escrow that is settled, refunded or expired (state
/// error); a paused protocol; fewer than two submitted signatures; and a
/// submission that credits fewer than two distinct oracle keys — duplicate
/// signatures by one key are never credited twice. On success the escrow is
/// `Settled`, the seller is owed the principal and the fee recipient the fee,
/// which together equal the lock-time deposit, so the vault is left empty.
pub fn settle(
    config: &Config,
    escrow: &mut Escrow,
    oracle_signatures: &Vec<Signature>,
    now: i64,
) -> (r: Result<SettleOutcome, TradeEscrowError>)
    requires
        config.wf(),
    ensures
        r is Ok <==> settle_accepts(*config, *old(escrow), oracle_signatures@, now),
        r is Err ==> r == Err::<SettleOutcome, _>(
            settle_error(*config, *old(escrow), oracle_signatures@, now),
        ) && *final(escrow) == *old(escrow),
        r matches Ok(o) ==> {
            &&& *final(escrow) == (Escrow { status: EscrowStatus::Settled, ..*old(escrow) })
            &&& o.seller_payout == old(escrow).amount
            &&& o.fee_payout == spec_fee(config.fee_bps, old(escrow).amount)
            &&& o.seller_payout + o.fee_payout == lock_deposit(config.fee_bps, old(escrow).amount)
            &&& o.event == (EscrowSettled {
                escrow_id: old(escrow).spec_id(),
                buyer: old(escrow).buyer,
                seller: old(escrow).seller,
                amount: old(escrow).amount,
                oracle_count: quorum_count(
                    config.oracle_pubkeys,
                    spec_escrow_settlement_message(*old(escrow)),
                    oracle_signatures@,
                ) as u8,
            })
        },
{
    if !escrow.can_settle(now) {
        return Err(TradeEscrowError::CannotSettle);
    }
    if config.paused {
        return Err(TradeEscrowError::ContractPaused);
    }
    if oracle_signatures.len() < 2 {
        return Err(TradeEscrowError::InsufficientOracleSignatures);
    }
    let message = settlement_message(escrow.asset_id, &escrow.buyer, &escrow.seller, escrow.nonce);
    let valid_signatures = count_distinct_oracle_signatures(config, &message, oracle_signatures);
    if valid_signatures < 2 {
        return Err(TradeEscrowError::InvalidOracleSignatures);
    }
    let fee = config.calculate_fee(escrow.amount);
    let event = EscrowSettled {
        escrow_id: escrow.id(),
        buyer: escrow.buyer,
        seller: escrow.seller,
        amount: escrow.amount,
        oracle_count: valid_signatures as u8,
    };
    let seller_payout = escrow.amount;
    escrow.status = EscrowStatus::Settled;
    Ok(SettleOutcome { seller_payout, fee_payout: fee, event })
}

} // verus!
