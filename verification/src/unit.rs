//! Which service-manager units tell of a bluetooth device coming or going.

use crate::dispatch::{Action, Effect};
use crate::text::{chars_of, contains_chars, contains_text};
use vstd::prelude::*;

verus! {

/// A unit concerns a bluetooth device when its name holds both `bluetooth`
/// and `sys-subsystem`.
pub open spec fn concerns_bluetooth(unit: Seq<char>) -> bool {
    contains_text(unit, "bluetooth"@) && contains_text(unit, "sys-subsystem"@)
}

/// The signal number that asks the taskbar to refresh its bluetooth entry.
pub const REFRESH_SIGNAL: u32 = 13;

/// Whether the unit's name tells of a bluetooth device.
pub fn is_bluetooth_unit(unit: &str) -> (b: bool)
    ensures
        b == concerns_bluetooth(unit@),
{
    let name = chars_of(unit);
    contains_chars(&name, &chars_of("bluetooth")) && contains_chars(
        &name,
        &chars_of("sys-subsystem"),
    )
}

/// What a unit that appeared or went away owes: a refresh of the taskbar
/// where it concerns a bluetooth device, nothing otherwise.
pub fn unit_notification(unit: &str) -> (action: Option<Action>)
    ensures
        action is Some == concerns_bluetooth(unit@),
        action matches Some(a) ==> a@ == (Effect::Notify {
            rule: "bluetooth"@,
            process: "waybar"@,
            signal: REFRESH_SIGNAL,
        }),
{
    if is_bluetooth_unit(unit) {
        Some(
            Action::Notify {
                rule: String::from_str("bluetooth"),
                process: String::from_str("waybar"),
                signal: REFRESH_SIGNAL,
            },
        )
    } else {
        None
    }
}

} // verus!
