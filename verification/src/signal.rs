//! Realtime signal numbers and the decision to deliver one.

use vstd::prelude::*;

verus! {

/// The signal number that lies `number` above the realtime base, where that
/// sum is a signal number the platform type can hold.
pub open spec fn offset_signal(base: i32, number: u32) -> Option<i32> {
    if base + number <= i32::MAX {
        Some((base + number) as i32)
    } else {
        None
    }
}

/// What becomes of a notification once the target process was looked up.
#[derive(Clone, Copy, Debug, PartialEq, Eq, Structural)]
pub enum Delivery {
    /// Send `signal` to the process `pid`.
    Kill { pid: i32, signal: i32 },
    /// No process of that name is running: report it, send nothing.
    NotRunning,
    /// The process id or the signal number cannot be handed to the system:
    /// report it, send nothing.
    Undeliverable,
}

/// The delivery owed for a looked-up process id, a realtime base and a
/// rule's signal number.
pub open spec fn delivery(pid: Option<u32>, base: i32, number: u32) -> Delivery {
    match pid {
        None => Delivery::NotRunning,
        Some(p) => match offset_signal(base, number) {
            Some(signal) if 0 < p <= i32::MAX => Delivery::Kill { pid: p as i32, signal },
            _ => Delivery::Undeliverable,
        },
    }
}

/// Calls `libc::SIGRTMIN`, the first realtime signal number the C library
/// leaves to applications. Nothing is claimed of the number.
#[verifier::external_body]
fn realtime_base() -> (base: i32) {
    libc::SIGRTMIN()
}

/// Adds a rule's signal number to a realtime base.
pub fn realtime_signal(base: i32, number: u32) -> (r: Option<i32>)
    ensures
        r == offset_signal(base, number),
{
    let sum: i64 = base as i64 + number as i64;
    if sum <= i32::MAX as i64 {
        Some(sum as i32)
    } else {
        None
    }
}

/// Decides a delivery for a given realtime base. See [`delivery`].
pub fn decide_delivery(pid: Option<u32>, base: i32, number: u32) -> (d: Delivery)
    ensures
        d == delivery(pid, base, number),
{
    match pid {
        None => Delivery::NotRunning,
        Some(p) => match realtime_signal(base, number) {
            Some(signal) => {
                if 0 < p && p <= i32::MAX as u32 {
                    Delivery::Kill { pid: p as i32, signal }
                } else {
                    Delivery::Undeliverable
                }
            },
            None => Delivery::Undeliverable,
        },
    }
}

/// Decides a delivery on this machine: the realtime base is the one the C
/// library reports. Whatever that base is, a process that was not found is
/// never signalled.
pub fn notify_decision(pid: Option<u32>, number: u32) -> (d: Delivery)
    ensures
        exists|base: i32| d == #[trigger] delivery(pid, base, number),
        pid is None ==> d == Delivery::NotRunning,
{
    let base = realtime_base();
    decide_delivery(pid, base, number)
}

/// A target process that is not running never leads to a signal, whatever
/// the realtime base and the signal number are.
pub proof fn lemma_absent_process_is_not_signalled(base: i32, number: u32)
    ensures
        delivery(None, base, number) == Delivery::NotRunning,
{
}

} // verus!
