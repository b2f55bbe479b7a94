use vstd::prelude::*;

use crate::escrow::EscrowId;
use crate::identity::Identity;

verus! {

/// Why an escrow was refunded.
#[derive(Clone, Copy, PartialEq, Eq, Structural, Debug)]
pub enum RefundReason {
    DeadlineExpired,
}

/// Which configuration change an audit event records.
#[derive(Clone, Copy, PartialEq, Eq, Structural, Debug)]
pub enum ConfigChange {
    Unpause,
    OracleUpdate,
}

/// Audit event: funds were locked for a new trade.
#[derive(Clone, Copy, PartialEq, Eq, Debug)]
pub struct EscrowLocked {
    pub escrow_id: EscrowId,
    pub buyer: Identity,
    pub seller: Identity,
    pub asset_id: u64,
    pub amount: u64,
    pub deadline: i64,
}

/// Audit event: an oracle quorum attested delivery and the seller was paid.
#[derive(Clone, Copy, PartialEq, Eq, Debug)]
pub struct EscrowSettled {
    pub escrow_id: EscrowId,
    pub buyer: Identity,
    pub seller: Identity,
    pub amount: u64,
    /// How many distinct oracle keys were credited with a valid signature.
    pub oracle_count: u8,
}

/// Audit event: the deadline lapsed unsettled and the buyer was repaid.
#[derive(Clone, Copy, PartialEq, Eq, Debug)]
pub struct EscrowRefunded {
    pub escrow_id: EscrowId,
    pub buyer: Identity,
    pub amount: u64,
    pub reason: RefundReason,
}

/// Audit event: the guardian pulled the emergency brake.
#[derive(Clone, Copy, PartialEq, Eq, Debug)]
pub struct EmergencyPause {
    pub triggered_by: Identity,
    pub timestamp: i64,
}

/// Audit event: the configuration changed (unpause or oracle rotation).
#[derive(Clone, Copy, PartialEq, Eq, Debug)]
pub struct ConfigUpdated {
    pub updated_by: Identity,
    pub change_type: ConfigChange,
    pub timestamp: i64,
}

} // verus!
