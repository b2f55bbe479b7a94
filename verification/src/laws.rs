use vstd::prelude::*;

use crate::config::Config;
use crate::errors::TradeEscrowError;
use crate::escrow::Escrow;
use crate::identity::{Identity, Signature};
use crate::lock::{lock_accepts, lock_error};
use crate::refund::{refund_accepts, refund_error};
use crate::settle::{settle_accepts, settle_error};

verus! {

/// An emergency pause blocks every lock: with the pause flag set no lock is
/// accepted, whatever the other arguments, and the failure is the
/// operational error.
pub proof fn lemma_pause_blocks_lock(
    config: Config,
    seller: Identity,
    asset_id: u64,
    amount: u64,
    price_max: u64,
    ask_signature: Signature,
    deadline_offset: i64,
    now: i64,
    buyer_balance: u64,
)
    requires
        config.paused,
    ensures
        !lock_accepts(
            config,
            seller,
            asset_id,
            amount,
            price_max,
            ask_signature,
            deadline_offset,
            now,
            buyer_balance,
        ),
        lock_error(
            config,
            seller,
            asset_id,
            amount,
            price_max,
            ask_signature,
            deadline_offset,
            now,
            buyer_balance,
        ) == TradeEscrowError::ContractPaused,
{
}

/// An emergency pause blocks every settlement: with the pause flag set no
/// settle is accepted, and an escrow that is otherwise eligible fails with
/// the operational error (an ineligible one still fails with its state
/// error first).
pub proof fn lemma_pause_blocks_settle(config: Config, e: Escrow, sigs: Seq<Signature>, now: i64)
    requires
        config.paused,
    ensures
        !settle_accepts(config, e, sigs, now),
        e.spec_can_settle(now) ==> settle_error(config, e, sigs, now)
            == TradeEscrowError::ContractPaused,
{
}

/// A refund is decided by the escrow record, the caller and the clock alone:
/// no configuration field — the pause flag included — enters the refund
/// guard or its error, so refunds stay available during an emergency pause.
pub proof fn lemma_refund_ignores_pause(e: Escrow, caller: Identity, now: i64)
    ensures
        refund_accepts(e, caller, now) <==> (e.spec_can_refund(now) && caller == e.buyer),
        !refund_accepts(e, caller, now) ==> refund_error(e, caller, now)
            == if !e.spec_can_refund(now) {
            TradeEscrowError::CannotRefund
        } else {
            TradeEscrowError::UnauthorizedRefund
        },
{
}

/// The pause flag is the only gate the configuration adds or removes: two
/// configurations that agree on everything the checks read — the flag and
/// the fee rate for lock, the flag and the oracle set for settle — accept
/// and reject identically. Unpausing therefore restores exactly the locks
/// and settlements the same configuration accepted before the pause.
pub proof fn lemma_unpause_restores_lock_and_settle(
    c1: Config,
    c2: Config,
    seller: Identity,
    asset_id: u64,
    amount: u64,
    price_max: u64,
    ask_signature: Signature,
    deadline_offset: i64,
    now: i64,
    buyer_balance: u64,
    e: Escrow,
    sigs: Seq<Signature>,
)
    requires
        c1.paused == c2.paused,
        c1.fee_bps == c2.fee_bps,
        c1.oracle_pubkeys == c2.oracle_pubkeys,
    ensures
        lock_accepts(
            c1,
            seller,
            asset_id,
            amount,
            price_max,
            ask_signature,
            deadline_offset,
            now,
            buyer_balance,
        ) == lock_accepts(
            c2,
            seller,
            asset_id,
            amount,
            price_max,
            ask_signature,
            deadline_offset,
            now,
            buyer_balance,
        ),
        settle_accepts(c1, e, sigs, now) == settle_accepts(c2, e, sigs, now),
{
}

/// A settled or refunded escrow rejects both transitions with its state
/// error, whatever the caller, the signatures, the configuration or the
/// clock: the status field is the sole mutual-exclusion point, so a vault is
/// never drained twice.
pub proof fn lemma_terminal_escrow_rejects_transitions(
    config: Config,
    e: Escrow,
    sigs: Seq<Signature>,
    caller: Identity,
    now: i64,
)
    requires
        e.spec_settled(),
    ensures
        !settle_accepts(config, e, sigs, now),
        settle_error(config, e, sigs, now) == TradeEscrowError::CannotSettle,
        !refund_accepts(e, caller, now),
        refund_error(e, caller, now) == TradeEscrowError::CannotRefund,
{
}

/// No early refund: while the deadline has not passed, the refund guard
/// fails with the state error even for the escrow's registered buyer.
pub proof fn lemma_no_refund_before_deadline(e: Escrow, caller: Identity, now: i64)
    requires
        now <= e.deadline,
    ensures
        !refund_accepts(e, caller, now),
        refund_error(e, caller, now) == TradeEscrowError::CannotRefund,
{
}

} // verus!
