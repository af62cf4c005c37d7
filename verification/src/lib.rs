//! Register-level start/stop sequencing for the ULP RISC-V coprocessor.
//!
//! The coprocessor is moved between its halted and running states by a fixed,
//! hardware-mandated order of single-bit register writes with settle delays in
//! between. This crate captures that protocol: `run` and `stop` on [`UlpCore`]
//! emit the exact ordered sequence of register operations, stated and proved in
//! their contracts. Performing the operations on the memory-mapped control
//! block is left to the surrounding platform layer, which drains the queue.

pub mod regs;
pub mod sequence;
pub mod ulp;

pub use regs::RegOp;
pub use regs::SETTLE_DELAY_US;
pub use regs::UlpCoreWakeupSource;
pub use sequence::ulp_config_wakeup_source;
pub use sequence::ulp_run;
pub use sequence::ulp_stop;
pub use ulp::UlpCore;
pub use ulp::UlpRiscvCorePeripheral;
