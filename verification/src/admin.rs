use vstd::prelude::*;

use crate::config::Config;
use crate::errors::TradeEscrowError;
use crate::events::{ConfigChange, ConfigUpdated, EmergencyPause};
use crate::identity::Identity;

verus! {

/// Emergency pause, guardian only: sets the pause flag, which blocks `lock`
/// and `settle` but never `refund`. Any other caller is rejected before any
/// mutation.
pub fn pause(config: &mut Config, caller: &Identity, now: i64) -> (r: Result<
    EmergencyPause,
    TradeEscrowError,
>)
    ensures
        *caller != old(config).guardian ==> r == Err::<EmergencyPause, _>(
            TradeEscrowError::UnauthorizedGuardian,
        ) && *final(config) == *old(config),
        *caller == old(config).guardian ==> {
            &&& *final(config) == (Config { paused: true, ..*old(config) })
            &&& r == Ok::<_, TradeEscrowError>(
                (EmergencyPause { triggered_by: *caller, timestamp: now }),
            )
        },
{
    if !caller.same(&config.guardian) {
        return Err(TradeEscrowError::UnauthorizedGuardian);
    }
    config.paused = true;
    Ok(EmergencyPause { triggered_by: *caller, timestamp: now })
}

/// Clear the pause flag, guardian only; `lock` and `settle` become available
/// again. Any other caller is rejected before any mutation.
pub fn unpause(config: &mut Config, caller: &Identity, now: i64) -> (r: Result<
    ConfigUpdated,
    TradeEscrowError,
>)
    ensures
        *caller != old(config).guardian ==> r == Err::<ConfigUpdated, _>(
            TradeEscrowError::UnauthorizedGuardian,
        ) && *final(config) == *old(config),
        *caller == old(config).guardian ==> {
            &&& *final(config) == (Config { paused: false, ..*old(config) })
            &&& r == Ok::<_, TradeEscrowError>(
                (ConfigUpdated {
                    updated_by: *caller,
                    change_type: ConfigChange::Unpause,
                    timestamp: now,
                }),
            )
        },
{
    if !caller.same(&config.guardian) {
        return Err(TradeEscrowError::UnauthorizedGuardian);
    }
    config.paused = false;
    Ok(ConfigUpdated { updated_by: *caller, change_type: ConfigChange::Unpause, timestamp: now })
}

/// Replace the full oracle set, admin only: no partial rotation. Any other
/// caller is rejected and the oracle set is left unchanged.
pub fn update_oracles(
    config: &mut Config,
    caller: &Identity,
    new_oracles: [Identity; 3],
    now: i64,
) -> (r: Result<ConfigUpdated, TradeEscrowError>)
    ensures
        *caller != old(config).admin ==> r == Err::<ConfigUpdated, _>(
            TradeEscrowError::UnauthorizedAdmin,
        ) && *final(config) == *old(config),
        *caller == old(config).admin ==> {
            &&& *final(config) == (Config { oracle_pubkeys: new_oracles, ..*old(config) })
            &&& r == Ok::<_, TradeEscrowError>(
                (ConfigUpdated {
                    updated_by: *caller,
                    change_type: ConfigChange::OracleUpdate,
                    timestamp: now,
                }),
            )
        },
{
    if !caller.same(&config.admin) {
        return Err(TradeEscrowError::UnauthorizedAdmin);
    }
    config.oracle_pubkeys = new_oracles;
    Ok(ConfigUpdated { updated_by: *caller, change_type: ConfigChange::OracleUpdate, timestamp: now })
}

} // verus!
