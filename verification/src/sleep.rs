//! Decisions for sleeping a number of timer ticks
//!
//! Sleeping for a given number of ticks of a WKT clock runs the self-wake-up
//! timer and waits until its alarm flag is set. A busy sleep waits by
//! spinning; a regular sleep selects the clock, enables the WKT interrupt and
//! waits in sleep mode between checks. The functions in this module make the
//! decisions of that loop; waiting (spinning or WFI) and moving the WKT
//! registers to and from the device is left to the caller.

use vstd::prelude::*;

use crate::{
    init_state,
    wkt::{self, CTRL_ALARMFLAG, CTRL_CLEARCTR, WKT},
};

verus! {

/// What the caller of a sleep does next
#[derive(PartialEq, Eq, Structural, Clone, Copy, Debug)]
pub enum SleepAction {
    /// The sleep is over
    Done,
    /// The timer runs; wait (spin or sleep), refresh CTRL from the device and
    /// ask [`sleep_step`] again
    WaitForAlarm,
}

/// Starts a busy sleep of `ticks` ticks of the clock that the WKT runs on
///
/// A sleep of zero ticks is over at once and leaves the timer alone.
/// Otherwise the timer is started with `ticks` (see [`WKT::start`]).
pub fn start_busy_sleep(wkt: &mut WKT<init_state::Enabled>, ticks: u32) -> (action: SleepAction)
    ensures
        ticks == 0 ==> action == SleepAction::Done && *final(wkt) == *old(wkt),
        ticks != 0 ==> action == SleepAction::WaitForAlarm
            && final(wkt).wkt.ctrl == old(wkt).wkt.ctrl & !CTRL_CLEARCTR & !CTRL_ALARMFLAG
            && final(wkt).wkt.count == ticks,
{
    if ticks == 0 {
        return SleepAction::Done;
    }
    wkt.start(ticks);
    SleepAction::WaitForAlarm
}

/// Starts a regular sleep of `ticks` ticks of clock `C`
///
/// A sleep of zero ticks is over at once and leaves the timer alone.
/// Otherwise `C` is selected to run the timer, which is then started with
/// `ticks`. The caller enables the WKT interrupt in the NVIC, so that it wakes
/// the microcontroller up.
pub fn start_regular_sleep<C: wkt::Clock>(wkt: &mut WKT<init_state::Enabled>, ticks: u32) -> (action:
    SleepAction)
    ensures
        ticks == 0 ==> action == SleepAction::Done && *final(wkt) == *old(wkt),
        ticks != 0 ==> action == SleepAction::WaitForAlarm
            && final(wkt).wkt.ctrl == C::selected(old(wkt).wkt.ctrl) & !CTRL_CLEARCTR & !CTRL_ALARMFLAG
            && final(wkt).wkt.count == ticks,
{
    if ticks == 0 {
        return SleepAction::Done;
    }
    wkt.select_clock::<C>();
    wkt.start(ticks);
    SleepAction::WaitForAlarm
}

/// Decides, after a wait, whether the sleep is over
///
/// Looks at CTRL as last read from the device: the sleep is over once the
/// alarm flag is set.
pub fn sleep_step(wkt: &mut WKT<init_state::Enabled>) -> (action: SleepAction)
    ensures
        action == if old(wkt).wkt.ctrl & CTRL_ALARMFLAG != 0 {
            SleepAction::Done
        } else {
            SleepAction::WaitForAlarm
        },
        *final(wkt) == *old(wkt),
{
    match wkt.wait() {
        Ok(()) => SleepAction::Done,
        Err(_) => SleepAction::WaitForAlarm,
    }
}

} // verus!
