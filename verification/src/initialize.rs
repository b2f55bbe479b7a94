use vstd::prelude::*;

use crate::config::{Config, DEFAULT_FEE_BPS};
use crate::identity::Identity;

verus! {

/// Create the configuration singleton: the given oracle set and parties, the
/// default fee rate of 50 basis points, and the pause flag cleared. The host
/// ledger keeps at most one instance per deployment.
pub fn initialize(
    oracle_pubkeys: [Identity; 3],
    guardian: Identity,
    admin: Identity,
    fee_recipient: Identity,
) -> (r: Config)
    ensures
        r.oracle_pubkeys == oracle_pubkeys,
        r.paused == false,
        r.guardian == guardian,
        r.admin == admin,
        r.fee_bps == DEFAULT_FEE_BPS,
        r.fee_recipient == fee_recipient,
        r.wf(),
{
    Config {
        oracle_pubkeys,
        paused: false,
        guardian,
        admin,
        fee_bps: DEFAULT_FEE_BPS,
        fee_recipient,
    }
}

} // verus!
