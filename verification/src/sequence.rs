//! The sequencer: the fixed, ordered register-operation sequences that halt
//! and start the coprocessor, as specification and as executable emitters.
//!
//! Ordering is a hard invariant, not a style choice: selecting the
//! coprocessor before the timer path is configured hangs the host processor
//! (a documented hardware erratum), so the select write stands after the
//! wakeup source configurator in every sequence this module defines.

use vstd::prelude::*;

use crate::regs::RegOp;
use crate::regs::SETTLE_DELAY_US;
use crate::regs::UlpCoreWakeupSource;

verus! {

/// The halt protocol: disarm the sleep timer, suspend, arm the reset, let the
/// signals settle, then gate the clock off. The clock-gate clear is the write
/// that actually halts the coprocessor on this hardware; the suspend and
/// reset writes alone do not, but stay for other revisions.
pub open spec fn stop_seq() -> Seq<RegOp> {
    seq![
        RegOp::SlpTimerEnClear,
        RegOp::DoneSet,
        RegOp::ShutResetEnSet,
        RegOp::DelayUs(SETTLE_DELAY_US),
        RegOp::ClkGateEnClear,
    ]
}

/// The start protocol up to the wakeup source configurator: reset on power
/// on, force the clock on against the unstable trap-trigger reset value,
/// disarm the timer, wait a slow-clock cycle, claim the done line, enable the
/// clock gate.
pub open spec fn run_prologue() -> Seq<RegOp> {
    seq![
        RegOp::ShutResetEnSet,
        RegOp::ClkFoSet,
        RegOp::SlpTimerEnClear,
        RegOp::DelayUs(SETTLE_DELAY_US),
        RegOp::DoneForceSet,
        RegOp::ClkGateEnSet,
    ]
}

/// The wakeup source configurator's writes: exactly the registers that arm
/// the chosen trigger path, and no others.
pub open spec fn config_seq(wakeup_src: UlpCoreWakeupSource) -> Seq<RegOp> {
    match wakeup_src {
        UlpCoreWakeupSource::HpCpu => seq![
            RegOp::ForceStartTopClear,
            RegOp::SlpTimerEnSet,
        ],
    }
}

/// The start protocol after the configurator: select the coprocessor as the
/// run timer's target (deferred to here — the erratum workaround), settle,
/// clear the spurious interrupts the reconfiguration raised, and re-assert
/// the clock gate, which intervening writes implicitly clear.
pub open spec fn run_epilogue() -> Seq<RegOp> {
    seq![
        RegOp::SelClear,
        RegOp::DelayUs(SETTLE_DELAY_US),
        RegOp::ClearPendingInterrupts,
        RegOp::ClkGateEnSet,
    ]
}

/// The whole start protocol: the skeleton is the same for every wakeup
/// source; only the configurator's slice depends on it.
pub open spec fn run_seq(wakeup_src: UlpCoreWakeupSource) -> Seq<RegOp> {
    run_prologue() + config_seq(wakeup_src) + run_epilogue()
}

/// Appends the halt sequence to the operation queue, in order and complete.
pub fn ulp_stop(ops: &mut Vec<RegOp>)
    ensures
        final(ops)@ == old(ops)@ + stop_seq(),
{
    ops.push(RegOp::SlpTimerEnClear);
    ops.push(RegOp::DoneSet);
    ops.push(RegOp::ShutResetEnSet);
    ops.push(RegOp::DelayUs(SETTLE_DELAY_US));
    ops.push(RegOp::ClkGateEnClear);
}

/// Appends the start sequence for the given wakeup source to the operation
/// queue, in order and complete.
pub fn ulp_run(ops: &mut Vec<RegOp>, wakeup_src: UlpCoreWakeupSource)
    ensures
        final(ops)@ == old(ops)@ + run_seq(wakeup_src),
{
    ops.push(RegOp::ShutResetEnSet);
    ops.push(RegOp::ClkFoSet);
    ops.push(RegOp::SlpTimerEnClear);
    ops.push(RegOp::DelayUs(SETTLE_DELAY_US));
    ops.push(RegOp::DoneForceSet);
    ops.push(RegOp::ClkGateEnSet);
    ulp_config_wakeup_source(ops, wakeup_src);
    ops.push(RegOp::SelClear);
    ops.push(RegOp::DelayUs(SETTLE_DELAY_US));
    ops.push(RegOp::ClearPendingInterrupts);
    ops.push(RegOp::ClkGateEnSet);
}

/// Appends exactly the writes that arm the given wakeup source's trigger
/// path. A new wakeup source adds one arm here; the run skeleton stays as it
/// is.
pub fn ulp_config_wakeup_source(ops: &mut Vec<RegOp>, wakeup_src: UlpCoreWakeupSource)
    ensures
        final(ops)@ == old(ops)@ + config_seq(wakeup_src),
{
    match wakeup_src {
        UlpCoreWakeupSource::HpCpu => {
            ops.push(RegOp::ForceStartTopClear);
            ops.push(RegOp::SlpTimerEnSet);
        }
    }
}

/// Starting and then halting back to back yields exactly the concatenation
/// of the two sequences appended to the prior trace: no step of either is
/// dropped, reordered, or elided across the calls.
pub proof fn lemma_run_then_stop(trace: Seq<RegOp>, wakeup_src: UlpCoreWakeupSource)
    ensures
        (trace + run_seq(wakeup_src)) + stop_seq() == trace + (run_seq(wakeup_src) + stop_seq()),
{
    assert((trace + run_seq(wakeup_src)) + stop_seq()
        =~= trace + (run_seq(wakeup_src) + stop_seq()));
}

/// The coprocessor-select write never stands before the wakeup source
/// configurator's writes: for every wakeup source, no operation up to and
/// including the configurator's slice is the select, and the select comes
/// immediately after that slice.
pub proof fn lemma_select_after_configurator(wakeup_src: UlpCoreWakeupSource)
    ensures
        forall|i: int|
            0 <= i < run_prologue().len() + config_seq(wakeup_src).len()
                ==> run_seq(wakeup_src)[i] != RegOp::SelClear,
        run_seq(wakeup_src)[run_prologue().len() + config_seq(wakeup_src).len() as int]
            == RegOp::SelClear,
{
    match wakeup_src {
        UlpCoreWakeupSource::HpCpu => {
            assert forall|i: int|
                0 <= i < run_prologue().len() + config_seq(wakeup_src).len()
                    implies run_seq(wakeup_src)[i] != RegOp::SelClear by {
                if i < run_prologue().len() {
                    assert(run_seq(wakeup_src)[i] == run_prologue()[i]);
                } else {
                    assert(run_seq(wakeup_src)[i]
                        == config_seq(wakeup_src)[i - run_prologue().len()]);
                }
            }
        }
    }
}

/// The start skeleton is identical across wakeup sources: every run sequence
/// opens with the same prologue, closes with the same epilogue, and differs
/// only in the configurator's slice between them.
pub proof fn lemma_run_skeleton(wakeup_src: UlpCoreWakeupSource)
    ensures
        run_seq(wakeup_src).take(run_prologue().len() as int) == run_prologue(),
        run_seq(wakeup_src).skip(
            run_seq(wakeup_src).len() - run_epilogue().len()) == run_epilogue(),
        run_seq(wakeup_src).subrange(
            run_prologue().len() as int,
            run_seq(wakeup_src).len() - run_epilogue().len()) == config_seq(wakeup_src),
{
    assert(run_seq(wakeup_src).take(run_prologue().len() as int) =~= run_prologue());
    assert(run_seq(wakeup_src).skip(
        run_seq(wakeup_src).len() - run_epilogue().len()) =~= run_epilogue());
    assert(run_seq(wakeup_src).subrange(
        run_prologue().len() as int,
        run_seq(wakeup_src).len() - run_epilogue().len()) =~= config_seq(wakeup_src));
}

} // verus!
