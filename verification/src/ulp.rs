//! The coprocessor handle: the exclusive capability through which the
//! start/stop protocol is driven.

use vstd::prelude::*;

use crate::regs::RegOp;
use crate::regs::UlpCoreWakeupSource;
use crate::sequence::run_seq;
use crate::sequence::stop_seq;
use crate::sequence::ulp_run;
use crate::sequence::ulp_stop;

verus! {

/// The hardware peripheral descriptor for the coprocessor's register block.
/// It is consumed exactly once to produce a [`UlpCore`] handle and is neither
/// copyable nor clonable, so at most one live handle exists per descriptor;
/// the descriptor's own lifetime rules belong to the surrounding
/// hardware-abstraction layer.
pub struct UlpRiscvCorePeripheral;

/// Exclusive handle on the coprocessor's control registers. `run` and `stop`
/// append the protocol's register operations, in their mandated order, to the
/// handle's queue; the platform layer drains the queue and performs each
/// operation on the memory-mapped block. The view of the handle is the
/// sequence of operations issued and not yet drained.
pub struct UlpCore {
    issued: Vec<RegOp>,
    _lp_core: UlpRiscvCorePeripheral,
}

impl View for UlpCore {
    type V = Seq<RegOp>;

    closed spec fn view(&self) -> Seq<RegOp> {
        self.issued@
    }
}

impl UlpCore {
    /// Consumes the peripheral descriptor and yields the handle, with
    /// nothing issued yet. Creating the handle does not touch the hardware;
    /// halting the coprocessor is an explicit `stop`.
    pub fn new(lp_core: UlpRiscvCorePeripheral) -> (r: Self)
        ensures
            r@ == Seq::<RegOp>::empty(),
    {
        UlpCore { issued: Vec::new(), _lp_core: lp_core }
    }

    /// Halts the coprocessor: issues exactly the halt sequence, in order,
    /// after whatever was already queued.
    pub fn stop(&mut self)
        ensures
            final(self)@ == old(self)@ + stop_seq(),
    {
        ulp_stop(&mut self.issued);
    }

    /// Arms the given wakeup source and starts the coprocessor: issues
    /// exactly the start sequence for that source, in order, after whatever
    /// was already queued.
    pub fn run(&mut self, wakeup_src: UlpCoreWakeupSource)
        ensures
            final(self)@ == old(self)@ + run_seq(wakeup_src),
    {
        ulp_run(&mut self.issued, wakeup_src);
    }

    /// The operations issued so far and not yet drained, oldest first.
    pub fn ops(&self) -> (r: &Vec<RegOp>)
        ensures
            r@ == self@,
    {
        &self.issued
    }

    /// Empties the queue; the caller drains it after performing every
    /// operation on the hardware.
    pub fn clear(&mut self)
        ensures
            final(self)@ == Seq::<RegOp>::empty(),
    {
        self.issued = Vec::new();
    }
}

} // verus!
