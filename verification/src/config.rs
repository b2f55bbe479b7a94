use vstd::prelude::*;

use crate::identity::Identity;

verus! {

/// The fee rate that `initialize` installs: 50 basis points (0.5%).
pub const DEFAULT_FEE_BPS: u16 = 50;

/// The protocol configuration singleton: the oracle set, the emergency
/// guardian, the admin, the fee rate and its recipient, and the pause flag.
#[derive(Clone, Copy, PartialEq, Eq, Debug)]
pub struct Config {
    /// Oracle public keys (3 total; settlement needs 2-of-3 signatures).
    pub oracle_pubkeys: [Identity; 3],
    /// Emergency pause flag: blocks `lock` and `settle`, never `refund`.
    pub paused: bool,
    /// Guardian key for `pause` and `unpause`.
    pub guardian: Identity,
    /// Admin key for oracle rotation.
    pub admin: Identity,
    /// Protocol fee in basis points (e.g. 50 = 0.5%).
    pub fee_bps: u16,
    /// Where the protocol fee is paid on settlement.
    pub fee_recipient: Identity,
}

/// The protocol fee on `amount` at `fee_bps` basis points, rounded down.
pub open spec fn spec_fee(fee_bps: u16, amount: u64) -> int {
    (amount * fee_bps) / 10000
}

impl Config {
    /// The fee rate never leaves the basis-point scale: `initialize` installs
    /// 50 and no operation changes it.
    pub open spec fn wf(&self) -> bool {
        self.fee_bps <= 10000
    }

    pub open spec fn spec_is_oracle(&self, pubkey: Identity) -> bool {
        exists|i: int| 0 <= i < 3 && self.oracle_pubkeys[i] == pubkey
    }

    /// Whether `pubkey` is one of the three configured oracle keys.
    pub fn is_oracle(&self, pubkey: &Identity) -> (r: bool)
        ensures
            r == self.spec_is_oracle(*pubkey),
    {
        if self.oracle_pubkeys[0].same(pubkey) || self.oracle_pubkeys[1].same(pubkey)
            || self.oracle_pubkeys[2].same(pubkey) {
            true
        } else {
            assert forall|i: int| 0 <= i < 3 implies self.oracle_pubkeys[i] != *pubkey by {
                assert(self.oracle_pubkeys@[0] != *pubkey);
                assert(self.oracle_pubkeys@[1] != *pubkey);
                assert(self.oracle_pubkeys@[2] != *pubkey);
            }
            false
        }
    }

    /// The protocol fee on `amount`: floor(amount * fee_bps / 10000), computed
    /// in 128-bit arithmetic so no amount up to u64::MAX can overflow.
    pub fn calculate_fee(&self, amount: u64) -> (r: u64)
        requires
            self.wf(),
        ensures
            r == spec_fee(self.fee_bps, amount),
            r <= amount,
    {
        proof {
            assert((amount * self.fee_bps) / 10000 <= amount) by (nonlinear_arith)
                requires
                    self.fee_bps <= 10000,
            ;
        }
        (amount as u128 * self.fee_bps as u128 / 10000) as u64
    }
}

} // verus!
