//! Vocabulary of the protocol: the individual register operations the
//! sequencer issues, the settle-delay constant, and the wakeup sources.

use vstd::prelude::*;

verus! {

/// Settle time in microseconds after a write whose effect must propagate
/// through the slow RTC clock domain before the next dependent write. This is
/// a hardware timing requirement (at least one slow-clock cycle), not an
/// arbitrary pause.
pub const SETTLE_DELAY_US: u32 = 20;

/// One operation on the coprocessor's control registers: a single-bit-field
/// read-modify-write, the combined interrupt-clear write, or a busy delay.
/// Variants are named after the hardware register field they touch.
#[derive(Clone, Copy, Debug, PartialEq, Eq, Structural)]
pub enum RegOp {
    /// Clear `ulp_cp_slp_timer_en` in `ulp_cp_timer`: disarm the sleep/run
    /// timer.
    SlpTimerEnClear,
    /// Set `ulp_cp_slp_timer_en` in `ulp_cp_timer`: arm the sleep/run timer.
    SlpTimerEnSet,
    /// Set `cocpu_done` in `cocpu_ctrl`: logically suspend the coprocessor.
    DoneSet,
    /// Set `cocpu_shut_reset_en` in `cocpu_ctrl`: arm a processor reset.
    ShutResetEnSet,
    /// Set `cocpu_clk_fo` in `cocpu_ctrl`: force the coprocessor clock on, so
    /// the trap-trigger signal's unstable reset value cannot spuriously wake
    /// the host.
    ClkFoSet,
    /// Set `cocpu_done_force` in `cocpu_ctrl`: claim the done-signal line for
    /// the coprocessor ahead of selecting it.
    DoneForceSet,
    /// Set `cocpu_clkgate_en` in `cocpu_ctrl`: enable the coprocessor clock
    /// gate.
    ClkGateEnSet,
    /// Clear `cocpu_clkgate_en` in `cocpu_ctrl`: halt the clock driving the
    /// coprocessor.
    ClkGateEnClear,
    /// Clear `ulp_cp_force_start_top` in `ulp_cp_ctrl`: let the timer, not a
    /// manual force, govern the start.
    ForceStartTopClear,
    /// Clear `cocpu_sel` in `cocpu_ctrl`: select the coprocessor as the run
    /// timer's target.
    SelClear,
    /// One write to `int_clr_rtc` setting `cocpu_int_clr`,
    /// `cocpu_trap_int_clr` and `ulp_cp_int_clr`: discard the spurious wakeup
    /// interrupts raised by the reconfiguration itself.
    ClearPendingInterrupts,
    /// Busy-wait for the given number of microseconds.
    DelayUs(u32),
}

/// The hardware mechanisms that can trigger the coprocessor's transition from
/// armed to running. Extending this enumeration only adds an arm to the
/// wakeup source configurator; the run skeleton is untouched.
#[derive(Clone, Copy, Debug, PartialEq, Eq, Structural)]
pub enum UlpCoreWakeupSource {
    /// The host processor arms the sleep/run timer, which fires the start.
    HpCpu,
}

} // verus!
