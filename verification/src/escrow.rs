use vstd::prelude::*;

use crate::identity::Identity;

verus! {

/// The phase of a trade: one open state and two distinguishable terminal
/// outcomes.
#[derive(Clone, Copy, PartialEq, Eq, Structural, Debug)]
pub enum EscrowStatus {
    /// Funds are locked; settlement or (after the deadline) refund may follow.
    Active,
    /// The oracle quorum attested delivery and the seller was paid. Terminal.
    Settled,
    /// The deadline lapsed unsettled and the buyer was repaid. Terminal.
    Refunded,
}

/// The deterministic address of an escrow: the tuple it is derived from.
/// Collision-free except for repeated locks between the same parties on the
/// same asset within the same time-granularity unit.
#[derive(Clone, Copy, PartialEq, Eq, Debug)]
pub struct EscrowId {
    pub buyer: Identity,
    pub seller: Identity,
    pub asset_id: u64,
    pub nonce: u64,
}

/// One trade's escrow record. All fields but `status` are set at creation and
/// never change; `status` leaves `Active` exactly once.
#[derive(Clone, Copy, PartialEq, Eq, Debug)]
pub struct Escrow {
    pub buyer: Identity,
    pub seller: Identity,
    /// Opaque identifier of the off-ledger asset being traded.
    pub asset_id: u64,
    /// Principal locked in escrow; the protocol fee comes on top of it.
    pub amount: u64,
    /// Absolute deadline (Unix time) for trade completion.
    pub deadline: i64,
    pub status: EscrowStatus,
    /// Creation-time nonce: address uniqueness and signed-message binding.
    pub nonce: u64,
}

impl Escrow {
    /// Whether the escrow has left its open state, by either outcome.
    pub open spec fn spec_settled(&self) -> bool {
        self.status != EscrowStatus::Active
    }

    pub open spec fn spec_is_expired(&self, now: i64) -> bool {
        now > self.deadline
    }

    pub open spec fn spec_can_settle(&self, now: i64) -> bool {
        &&& self.status == EscrowStatus::Active
        &&& !self.spec_is_expired(now)
    }

    pub open spec fn spec_can_refund(&self, now: i64) -> bool {
        &&& self.status == EscrowStatus::Active
        &&& self.spec_is_expired(now)
    }

    pub open spec fn spec_id(&self) -> EscrowId {
        EscrowId {
            buyer: self.buyer,
            seller: self.seller,
            asset_id: self.asset_id,
            nonce: self.nonce,
        }
    }

    pub fn is_expired(&self, now: i64) -> (r: bool)
        ensures
            r == self.spec_is_expired(now),
    {
        now > self.deadline
    }

    pub fn can_settle(&self, now: i64) -> (r: bool)
        ensures
            r == self.spec_can_settle(now),
    {
        self.status == EscrowStatus::Active && !self.is_expired(now)
    }

    pub fn can_refund(&self, now: i64) -> (r: bool)
        ensures
            r == self.spec_can_refund(now),
    {
        self.status == EscrowStatus::Active && self.is_expired(now)
    }

    /// The escrow's deterministic address.
    pub fn id(&self) -> (r: EscrowId)
        ensures
            r == self.spec_id(),
    {
        EscrowId {
            buyer: self.buyer,
            seller: self.seller,
            asset_id: self.asset_id,
            nonce: self.nonce,
        }
    }
}

/// Terminal states are terminal: once an escrow is settled or refunded,
/// neither transition guard can hold again at any time. The status field is
/// the sole mutual-exclusion point, so a vault can never be drained twice.
pub proof fn lemma_terminal_states_are_terminal(e: Escrow, now: i64)
    requires
        e.spec_settled(),
    ensures
        !e.spec_can_settle(now),
        !e.spec_can_refund(now),
{
}

/// The derived predicates partition an escrow's life: settlement and refund
/// eligibility never hold together, and an active escrow is eligible for
/// exactly one of them, decided by deadline expiry alone.
pub proof fn lemma_transition_guards_partition(e: Escrow, now: i64)
    ensures
        !(e.spec_can_settle(now) && e.spec_can_refund(now)),
        e.status == EscrowStatus::Active ==> (e.spec_can_settle(now) <==> !e.spec_is_expired(now)),
        e.status == EscrowStatus::Active ==> (e.spec_can_refund(now) <==> e.spec_is_expired(now)),
{
}

} // verus!
