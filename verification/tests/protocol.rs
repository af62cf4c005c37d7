use ulp_core::RegOp;
use ulp_core::UlpCore;
use ulp_core::UlpCoreWakeupSource;
use ulp_core::UlpRiscvCorePeripheral;
use ulp_core::SETTLE_DELAY_US;

fn expected_stop() -> Vec<RegOp> {
    vec![
        RegOp::SlpTimerEnClear,
        RegOp::DoneSet,
        RegOp::ShutResetEnSet,
        RegOp::DelayUs(20),
        RegOp::ClkGateEnClear,
    ]
}

fn expected_run_hp_cpu() -> Vec<RegOp> {
    vec![
        RegOp::ShutResetEnSet,
        RegOp::ClkFoSet,
        RegOp::SlpTimerEnClear,
        RegOp::DelayUs(20),
        RegOp::DoneForceSet,
        RegOp::ClkGateEnSet,
        RegOp::ForceStartTopClear,
        RegOp::SlpTimerEnSet,
        RegOp::SelClear,
        RegOp::DelayUs(20),
        RegOp::ClearPendingInterrupts,
        RegOp::ClkGateEnSet,
    ]
}

#[test]
fn settle_delay_is_twenty_microseconds() {
    assert_eq!(SETTLE_DELAY_US, 20);
}

#[test]
fn new_issues_nothing() {
    let core = UlpCore::new(UlpRiscvCorePeripheral);
    assert!(core.ops().is_empty());
}

#[test]
fn stop_writes_in_order() {
    let mut core = UlpCore::new(UlpRiscvCorePeripheral);
    core.stop();
    assert_eq!(core.ops(), &expected_stop());
}

#[test]
fn stop_has_one_delay_after_reset_arm() {
    let mut core = UlpCore::new(UlpRiscvCorePeripheral);
    core.stop();
    let ops = core.ops();
    let delays: Vec<usize> = ops
        .iter()
        .enumerate()
        .filter(|(_, op)| matches!(op, RegOp::DelayUs(_)))
        .map(|(i, _)| i)
        .collect();
    assert_eq!(delays, vec![3]);
    assert_eq!(ops[2], RegOp::ShutResetEnSet);
    assert_eq!(ops[3], RegOp::DelayUs(20));
    assert_eq!(ops[4], RegOp::ClkGateEnClear);
}

#[test]
fn run_hp_cpu_writes_in_order() {
    let mut core = UlpCore::new(UlpRiscvCorePeripheral);
    core.run(UlpCoreWakeupSource::HpCpu);
    assert_eq!(core.ops(), &expected_run_hp_cpu());
}

#[test]
fn run_delays_follow_timer_disable_and_select() {
    let mut core = UlpCore::new(UlpRiscvCorePeripheral);
    core.run(UlpCoreWakeupSource::HpCpu);
    let ops = core.ops();
    let delays: Vec<usize> = ops
        .iter()
        .enumerate()
        .filter(|(_, op)| matches!(op, RegOp::DelayUs(_)))
        .map(|(i, _)| i)
        .collect();
    assert_eq!(delays, vec![3, 9]);
    assert_eq!(ops[2], RegOp::SlpTimerEnClear);
    assert_eq!(ops[3], RegOp::DelayUs(20));
    assert_eq!(ops[8], RegOp::SelClear);
    assert_eq!(ops[9], RegOp::DelayUs(20));
    assert_eq!(ops[10], RegOp::ClearPendingInterrupts);
}

#[test]
fn run_then_stop_is_the_concatenation() {
    let mut core = UlpCore::new(UlpRiscvCorePeripheral);
    core.run(UlpCoreWakeupSource::HpCpu);
    core.stop();
    let mut expected = expected_run_hp_cpu();
    expected.extend(expected_stop());
    assert_eq!(core.ops(), &expected);
}

#[test]
fn select_follows_configurator_writes() {
    let mut core = UlpCore::new(UlpRiscvCorePeripheral);
    core.run(UlpCoreWakeupSource::HpCpu);
    let ops = core.ops();
    let select = ops.iter().position(|op| *op == RegOp::SelClear).unwrap();
    let force_start = ops
        .iter()
        .position(|op| *op == RegOp::ForceStartTopClear)
        .unwrap();
    let timer_arm = ops.iter().position(|op| *op == RegOp::SlpTimerEnSet).unwrap();
    assert!(force_start < select);
    assert!(timer_arm < select);
    assert_eq!(ops.iter().filter(|op| **op == RegOp::SelClear).count(), 1);
}

#[test]
fn configurator_hp_cpu_writes_exactly_the_timer_arm() {
    let mut ops: Vec<RegOp> = Vec::new();
    ulp_core::ulp_config_wakeup_source(&mut ops, UlpCoreWakeupSource::HpCpu);
    assert_eq!(ops, vec![RegOp::ForceStartTopClear, RegOp::SlpTimerEnSet]);
}

#[test]
fn clear_empties_the_queue() {
    let mut core = UlpCore::new(UlpRiscvCorePeripheral);
    core.run(UlpCoreWakeupSource::HpCpu);
    core.clear();
    assert!(core.ops().is_empty());
    core.stop();
    assert_eq!(core.ops(), &expected_stop());
}
