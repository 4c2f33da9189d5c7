//! Battery status, and the protocol-independent wakeup for battery and split
//! connection observers.
//!
//! Producers own the actual status. Consumers read their snapshots after a
//! wakeup; no BLE service type is exposed to the producers.

use crate::signal::Wakeup;
use crate::signal::WakeupState;
use vstd::prelude::*;

verus! {

/// Whether a battery is being charged.
#[derive(Clone, Copy, Debug, PartialEq, Eq, Structural)]
pub enum ChargeState {
    Charging,
    Discharging,
    Unknown,
}

/// Status of one battery.
#[derive(Clone, Copy, Debug, PartialEq, Eq, Structural)]
pub enum BatteryStatus {
    /// There is no battery, or nothing is known of it.
    Unavailable,
    /// A battery with its charge level in percent, where that is known.
    Available { charge_state: ChargeState, level: Option<u8> },
}

/// Wakes the task that observes the battery and split connection state.
pub fn notify_battery_state_changed(changed: &mut Wakeup)
    ensures
        final(changed)@ == (WakeupState { raised: true, awaited: false }),
{
    changed.notify();
}

} // verus!
