//! The timer service: reads the machine clock and arms the next tick.
//!
//! The clock register and the firmware call that arms the timer are outside
//! this crate; here stand the conversions and the service decoding.
use vstd::prelude::*;
use crate::config::{CLOCK_FREQ, TIMER_GET, TIMER_INIT, TIMER_SETNEXT};

verus! {

/// Timer interrupts per second.
pub const TICKS_PER_SEC: usize = 100;
/// Milliseconds per second.
pub const MSEC_PER_SEC: usize = 1000;

/// Milliseconds elapsed for a clock reading of `time` ticks.
pub fn get_time_ms(time: usize) -> (ms: usize)
    ensures
        ms == time / (CLOCK_FREQ / MSEC_PER_SEC),
        ms == time / 12500,
{
    time / (CLOCK_FREQ / MSEC_PER_SEC)
}

/// The clock value at which the next timer interrupt is due, for a clock
/// reading of `now`: one tick period (1/100 s) later.
pub fn set_next_trigger(now: usize) -> (deadline: usize)
    requires
        now + CLOCK_FREQ / TICKS_PER_SEC <= usize::MAX,
    ensures
        deadline == now + CLOCK_FREQ / TICKS_PER_SEC,
        deadline == now + 125000,
{
    now + CLOCK_FREQ / TICKS_PER_SEC
}

/// A request to the timer service.
#[derive(Clone, Copy, Debug, PartialEq, Eq, Structural)]
pub enum TimerService {
    /// Reply the time in milliseconds.
    Get,
    /// Arm the next timer interrupt; the reply is 1.
    SetNext,
    /// Register the timer on the bus; the reply is 1.
    Init,
}

/// The request that service number `service_id` names, if any.
pub open spec fn timer_service_spec(service_id: usize) -> Option<TimerService> {
    if service_id == TIMER_GET {
        Some(TimerService::Get)
    } else if service_id == TIMER_SETNEXT {
        Some(TimerService::SetNext)
    } else if service_id == TIMER_INIT {
        Some(TimerService::Init)
    } else {
        None
    }
}

/// The timer service node.
pub struct Timer;

impl Timer {
    /// The request that service number `service_id` names; `None` for a
    /// number the timer does not serve (the kernel stops).
    pub fn decode(&self, service_id: usize) -> (r: Option<TimerService>)
        ensures
            r == timer_service_spec(service_id),
            service_id == TIMER_GET ==> r == Some(TimerService::Get),
            service_id == TIMER_SETNEXT ==> r == Some(TimerService::SetNext),
            service_id == TIMER_INIT ==> r == Some(TimerService::Init),
            service_id != TIMER_GET && service_id != TIMER_SETNEXT && service_id != TIMER_INIT
                ==> r is None,
    {
        if service_id == TIMER_GET {
            Some(TimerService::Get)
        } else if service_id == TIMER_SETNEXT {
            Some(TimerService::SetNext)
        } else if service_id == TIMER_INIT {
            Some(TimerService::Init)
        } else {
            None
        }
    }

    /// The reply to request `s`; `ms` is the time in milliseconds, read for
    /// `Get`.
    pub fn reply(&self, s: TimerService, ms: usize) -> (r: isize)
        ensures
            s == TimerService::Get ==> r == ms as isize,
            s != TimerService::Get ==> r == 1,
    {
        match s {
            TimerService::Get => ms as isize,
            _ => 1,
        }
    }
}

} // verus!
