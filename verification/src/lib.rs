//! A resource-metering core for instrumented WebAssembly guest code: a gas
//! meter, a linear cost model, and a stack-budget meter, each built on guarded
//! counter arithmetic that never silently wraps and reports the exact overflow
//! magnitude to the embedding host.

use vstd::prelude::*;

pub mod cost;
pub mod gas;
pub mod host;
pub mod stack;

use crate::cost::{charge_linear, linear_charge, overflow_events};
use crate::gas::{GasMeter, consume_events, gas_after_consume};
use crate::host::Host;
use crate::stack::{
    StackMeter, budget_after_enter, budget_after_leave, enter_events, frame_gas, leave_events,
    saturating_sum,
};

verus! {

/// Charge a constant amount of gas: the entry point the instrumentation
/// injects for ordinary instruction sequences. Delegates to
/// `GasMeter::consume` unchanged.
pub fn finite_wasm_gas<H: Host>(meter: &mut GasMeter, host: &mut H, gas: u64)
    ensures
        final(meter).gas() == gas_after_consume(old(meter).gas(), gas),
        final(host).notified() == old(host).notified() + consume_events(old(meter).gas(), gas),
{
    meter.consume(host, gas)
}

/// Charge the linear cost of a memory-copy instruction. One of six identical
/// wrappers over the linear cost model; they are distinct symbols only so the
/// instrumentation can attribute cost by instruction category.
pub fn finite_wasm_memory_copy<H: Host>(
    meter: &mut GasMeter,
    host: &mut H,
    count: u32,
    linear: u64,
    constant: u64,
)
    ensures
        final(meter).gas() == gas_after_consume(
            old(meter).gas(),
            linear_charge(count, linear, constant),
        ),
        final(host).notified() == old(host).notified() + overflow_events(count, linear, constant)
            + consume_events(old(meter).gas(), linear_charge(count, linear, constant)),
{
    charge_linear(meter, host, count, linear, constant)
}

/// Charge the linear cost of a memory-fill instruction; see
/// `finite_wasm_memory_copy`.
pub fn finite_wasm_memory_fill<H: Host>(
    meter: &mut GasMeter,
    host: &mut H,
    count: u32,
    linear: u64,
    constant: u64,
)
    ensures
        final(meter).gas() == gas_after_consume(
            old(meter).gas(),
            linear_charge(count, linear, constant),
        ),
        final(host).notified() == old(host).notified() + overflow_events(count, linear, constant)
            + consume_events(old(meter).gas(), linear_charge(count, linear, constant)),
{
    charge_linear(meter, host, count, linear, constant)
}

/// Charge the linear cost of a memory-init instruction; see
/// `finite_wasm_memory_copy`.
pub fn finite_wasm_memory_init<H: Host>(
    meter: &mut GasMeter,
    host: &mut H,
    count: u32,
    linear: u64,
    constant: u64,
)
    ensures
        final(meter).gas() == gas_after_consume(
            old(meter).gas(),
            linear_charge(count, linear, constant),
        ),
        final(host).notified() == old(host).notified() + overflow_events(count, linear, constant)
            + consume_events(old(meter).gas(), linear_charge(count, linear, constant)),
{
    charge_linear(meter, host, count, linear, constant)
}

/// Charge the linear cost of a table-copy instruction; see
/// `finite_wasm_memory_copy`.
pub fn finite_wasm_table_copy<H: Host>(
    meter: &mut GasMeter,
    host: &mut H,
    count: u32,
    linear: u64,
    constant: u64,
)
    ensures
        final(meter).gas() == gas_after_consume(
            old(meter).gas(),
            linear_charge(count, linear, constant),
        ),
        final(host).notified() == old(host).notified() + overflow_events(count, linear, constant)
            + consume_events(old(meter).gas(), linear_charge(count, linear, constant)),
{
    charge_linear(meter, host, count, linear, constant)
}

/// Charge the linear cost of a table-fill instruction; see
/// `finite_wasm_memory_copy`.
pub fn finite_wasm_table_fill<H: Host>(
    meter: &mut GasMeter,
    host: &mut H,
    count: u32,
    linear: u64,
    constant: u64,
)
    ensures
        final(meter).gas() == gas_after_consume(
            old(meter).gas(),
            linear_charge(count, linear, constant),
        ),
        final(host).notified() == old(host).notified() + overflow_events(count, linear, constant)
            + consume_events(old(meter).gas(), linear_charge(count, linear, constant)),
{
    charge_linear(meter, host, count, linear, constant)
}

/// Charge the linear cost of a table-init instruction; see
/// `finite_wasm_memory_copy`.
pub fn finite_wasm_table_init<H: Host>(
    meter: &mut GasMeter,
    host: &mut H,
    count: u32,
    linear: u64,
    constant: u64,
)
    ensures
        final(meter).gas() == gas_after_consume(
            old(meter).gas(),
            linear_charge(count, linear, constant),
        ),
        final(host).notified() == old(host).notified() + overflow_events(count, linear, constant)
            + consume_events(old(meter).gas(), linear_charge(count, linear, constant)),
{
    charge_linear(meter, host, count, linear, constant)
}

/// Reserve stack space on function entry and charge the frame's gas
/// surcharge. Delegates to `StackMeter::enter` unchanged.
pub fn finite_wasm_stack<H: Host>(
    stack_meter: &mut StackMeter,
    gas_meter: &mut GasMeter,
    host: &mut H,
    operand_size: u64,
    frame_size: u64,
)
    requires
        frame_size <= u64::MAX - 7,
    ensures
        final(stack_meter).budget() == budget_after_enter(
            old(stack_meter).budget(),
            saturating_sum(operand_size, frame_size),
        ),
        final(gas_meter).gas() == gas_after_consume(old(gas_meter).gas(), frame_gas(frame_size)),
        final(host).notified() == old(host).notified() + enter_events(
            old(stack_meter).budget(),
            saturating_sum(operand_size, frame_size),
        ) + consume_events(old(gas_meter).gas(), frame_gas(frame_size)),
{
    stack_meter.enter(gas_meter, host, operand_size, frame_size)
}

/// Release stack space on function exit or unwinding. Delegates to
/// `StackMeter::leave` unchanged.
pub fn finite_wasm_unstack<H: Host>(
    stack_meter: &mut StackMeter,
    host: &mut H,
    operand_size: u64,
    frame_size: u64,
)
    ensures
        final(stack_meter).budget() == budget_after_leave(
            old(stack_meter).budget(),
            saturating_sum(operand_size, frame_size),
        ),
        final(host).notified() == old(host).notified() + leave_events(
            old(stack_meter).budget(),
            saturating_sum(operand_size, frame_size),
        ),
{
    stack_meter.leave(host, operand_size, frame_size)
}

} // verus!
