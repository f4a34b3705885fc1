use finite_wasm_meter::cost::charge_linear;
use finite_wasm_meter::gas::GasMeter;
use finite_wasm_meter::host::{Notification, RecordingHost};
use finite_wasm_meter::{
    finite_wasm_gas, finite_wasm_memory_copy, finite_wasm_memory_fill, finite_wasm_memory_init,
    finite_wasm_table_copy, finite_wasm_table_fill, finite_wasm_table_init,
};

fn asserts(meter: &GasMeter, host: &RecordingHost, gas: u64, overflow: u64, params_overflowed: bool) {
    assert_eq!(meter.remaining(), gas, "Wrong gas value");
    let mut gas_overflow: u64 = 0;
    let mut params: bool = false;
    for notification in host.notifications() {
        match notification {
            Notification::GasExhausted { overflow } => gas_overflow = *overflow,
            Notification::CostParametersOverflowed { .. } => params = true,
            other => panic!("unexpected notification: {:?}", other),
        }
    }
    assert_eq!(overflow, gas_overflow, "Wrong overflow value");
    assert_eq!(params_overflowed, params, "Wrong overflow value");
}

fn check_const(init: u64, used: u64, gas_left: u64, overflow: u64) {
    let mut meter = GasMeter::new(init);
    let mut host = RecordingHost::new();
    meter.consume(&mut host, used);
    println!("CONST (@{init}): gas = {used}");
    asserts(&meter, &host, gas_left, overflow, false);
}

fn check_linear(
    init: u64,
    count: u32,
    linear: u64,
    constant: u64,
    gas_left: u64,
    overflow_amt: u64,
    params_overflowed: bool,
) {
    let mut meter = GasMeter::new(init);
    let mut host = RecordingHost::new();
    charge_linear(&mut meter, &mut host, count, linear, constant);
    println!("LINEAR ({init}): gas = {constant} + ( {count} * {linear} )");
    asserts(&meter, &host, gas_left, overflow_amt, params_overflowed);
}

#[test]
fn gas_all() {
    // const: no overflow
    check_const(0, 0, 0, 0);
    check_const(1, 1, 0, 0);
    // const: with overflow
    check_const(1, 2, 1, 1);
    check_const(1, 20, 1, 19);

    // linear: no overflow
    check_linear(0, 0, 0, 0, 0, 0, false);
    check_linear(1, 0, 0, 1, 0, 0, false);
    check_linear(2, 2, 1, 0, 0, 0, false);
    check_linear(3, 2, 1, 1, 0, 0, false);
    check_linear(10, 2, 1, 1, 7, 0, false);
    check_linear(u64::MAX, 0, 0, u64::MAX, 0, 0, false);
    // linear: with overflow
    check_linear(2, 2, 1, 1, 2, 1, false);
    check_linear(1, 0, 0, u64::MAX, 1, u64::MAX - 1, false);
    // linear: with param overflow
    check_linear(2, 1, 1, u64::MAX, 2, u64::MAX - 2, true);
}

#[test]
fn consume_exact_budget_reaches_zero() {
    let mut meter = GasMeter::new(20);
    let mut host = RecordingHost::new();
    meter.consume(&mut host, 20);
    assert_eq!(meter.remaining(), 0);
    assert_eq!(host.notifications().len(), 0);
}

#[test]
fn consume_overflow_reports_exact_shortfall() {
    let mut meter = GasMeter::new(1);
    let mut host = RecordingHost::new();
    meter.consume(&mut host, 2);
    assert_eq!(meter.remaining(), 1);
    assert_eq!(host.notifications().len(), 1);
    assert_eq!(
        host.notifications()[0],
        Notification::GasExhausted { overflow: 1 }
    );
}

#[test]
fn charge_linear_param_overflow_then_exhaustion() {
    // Addition overflows: one parameters report with the original inputs,
    // then a u64::MAX charge exhausts the budget.
    let mut meter = GasMeter::new(2);
    let mut host = RecordingHost::new();
    charge_linear(&mut meter, &mut host, 1, 1, u64::MAX);
    assert_eq!(meter.remaining(), 2);
    let log = host.notifications();
    assert_eq!(log.len(), 2);
    assert_eq!(
        log[0],
        Notification::CostParametersOverflowed {
            count: 1,
            linear: 1,
            constant: u64::MAX,
        }
    );
    assert_eq!(log[1], Notification::GasExhausted { overflow: u64::MAX - 2 });
}

#[test]
fn charge_linear_double_param_overflow_keeps_original_inputs() {
    // The multiplication overflows, and so does the addition of the clamped
    // product; both reports carry the untouched parameters.
    let mut meter = GasMeter::new(10);
    let mut host = RecordingHost::new();
    charge_linear(&mut meter, &mut host, 2, u64::MAX, 5);
    assert_eq!(meter.remaining(), 10);
    let log = host.notifications();
    assert_eq!(log.len(), 3);
    let report = Notification::CostParametersOverflowed {
        count: 2,
        linear: u64::MAX,
        constant: 5,
    };
    assert_eq!(log[0], report);
    assert_eq!(log[1], report);
    assert_eq!(log[2], Notification::GasExhausted { overflow: u64::MAX - 10 });
}

#[test]
fn charge_linear_mul_overflow_zero_constant_reports_once() {
    // Only the multiplication overflows; the clamped u64::MAX plus a zero
    // constant still fits, so a single parameters report precedes the charge.
    let mut meter = GasMeter::new(7);
    let mut host = RecordingHost::new();
    charge_linear(&mut meter, &mut host, 2, u64::MAX, 0);
    assert_eq!(meter.remaining(), 7);
    let log = host.notifications();
    assert_eq!(log.len(), 2);
    assert_eq!(
        log[0],
        Notification::CostParametersOverflowed {
            count: 2,
            linear: u64::MAX,
            constant: 0,
        }
    );
    assert_eq!(log[1], Notification::GasExhausted { overflow: u64::MAX - 7 });
}

#[test]
fn host_refill_after_exhaustion() {
    let mut meter = GasMeter::new(1);
    let mut host = RecordingHost::new();
    meter.consume(&mut host, 5);
    assert_eq!(meter.remaining(), 1);
    assert_eq!(
        host.notifications()[0],
        Notification::GasExhausted { overflow: 4 }
    );
    // The host overwrites the register between calls.
    meter.set_remaining(100);
    meter.consume(&mut host, 5);
    assert_eq!(meter.remaining(), 95);
    assert_eq!(host.notifications().len(), 1);
}

#[test]
fn entry_points_charge_like_their_operations() {
    let mut meter = GasMeter::new(100);
    let mut host = RecordingHost::new();
    finite_wasm_gas(&mut meter, &mut host, 10);
    assert_eq!(meter.remaining(), 90);
    finite_wasm_memory_copy(&mut meter, &mut host, 2, 3, 4);
    assert_eq!(meter.remaining(), 80);
    finite_wasm_memory_fill(&mut meter, &mut host, 2, 3, 4);
    assert_eq!(meter.remaining(), 70);
    finite_wasm_memory_init(&mut meter, &mut host, 2, 3, 4);
    assert_eq!(meter.remaining(), 60);
    finite_wasm_table_copy(&mut meter, &mut host, 2, 3, 4);
    assert_eq!(meter.remaining(), 50);
    finite_wasm_table_fill(&mut meter, &mut host, 2, 3, 4);
    assert_eq!(meter.remaining(), 40);
    finite_wasm_table_init(&mut meter, &mut host, 2, 3, 4);
    assert_eq!(meter.remaining(), 30);
    assert_eq!(host.notifications().len(), 0);
}
