use vstd::prelude::*;

use crate::config::{spec_fee, Config};
use crate::errors::TradeEscrowError;
use crate::escrow::{Escrow, EscrowStatus};
use crate::events::{EscrowRefunded, RefundReason};
use crate::identity::Identity;
use crate::lock::lock_deposit;

verus! {

/// Everything `refund` produces: the repayment the host ledger must move
/// from the vault back to the buyer, and the audit event.
pub struct RefundOutcome {
    /// `amount + fee`: the whole vault, returned to the buyer.
    pub refund_amount: u64,
    pub event: EscrowRefunded,
}

/// All of `refund`'s preconditions at once: exactly when a refund call
/// succeeds. Deliberately not gated on the pause flag: refunds stay
/// available during an emergency pause. Deadline expiry alone authorizes the
/// registered buyer; no seller or oracle takes part.
pub open spec fn refund_accepts(e: Escrow, caller: Identity, now: i64) -> bool {
    &&& e.spec_can_refund(now)
    &&& caller == e.buyer
}

/// Which error a failing `refund` call reports: the first check that fails,
/// in the order the checks run.
pub open spec fn refund_error(e: Escrow, caller: Identity, now: i64) -> TradeEscrowError {
    if !e.spec_can_refund(now) {
        TradeEscrowError::CannotRefund
    } else {
        TradeEscrowError::UnauthorizedRefund
    }
}

/// Refund the buyer after the deadline lapsed unsettled.
///
/// Rejects an escrow that is settled, refunded or not yet expired (state
/// error), and a caller other than the escrow's registered buyer. The pause
/// flag is never consulted. On success the escrow is `Refunded` and the
/// buyer is owed the whole vault: the principal plus the fee, exactly the
/// lock-time deposit.
pub fn refund(config: &Config, escrow: &mut Escrow, caller: &Identity, now: i64) -> (r: Result<
    RefundOutcome,
    TradeEscrowError,
>)
    requires
        config.wf(),
        old(escrow).amount + spec_fee(config.fee_bps, old(escrow).amount) <= u64::MAX,
    ensures
        r is Ok <==> refund_accepts(*old(escrow), *caller, now),
        r is Err ==> r == Err::<RefundOutcome, _>(refund_error(*old(escrow), *caller, now))
            && *final(escrow) == *old(escrow),
        r matches Ok(o) ==> {
            &&& *final(escrow) == (Escrow { status: EscrowStatus::Refunded, ..*old(escrow) })
            &&& o.refund_amount == lock_deposit(config.fee_bps, old(escrow).amount)
            &&& o.event == (EscrowRefunded {
                escrow_id: old(escrow).spec_id(),
                buyer: old(escrow).buyer,
                amount: o.refund_amount,
                reason: RefundReason::DeadlineExpired,
            })
        },
{
    if !escrow.can_refund(now) {
        return Err(TradeEscrowError::CannotRefund);
    }
    if !caller.same(&escrow.buyer) {
        return Err(TradeEscrowError::UnauthorizedRefund);
    }
    let fee = config.calculate_fee(escrow.amount);
    let refund_amount = escrow.amount + fee;
    let event = EscrowRefunded {
        escrow_id: escrow.id(),
        buyer: escrow.buyer,
        amount: refund_amount,
        reason: RefundReason::DeadlineExpired,
    };
    escrow.status = EscrowStatus::Refunded;
    Ok(RefundOutcome { refund_amount, event })
}

} // verus!
