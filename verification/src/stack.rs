use vstd::prelude::*;

use crate::gas::{GasMeter, consume_events, gas_after_consume};
use crate::host::{Host, Notification};

verus! {

/// Gas cost of one regular operation; it scales the per-8-bytes stack-frame
/// surcharge and is fixed for the life of the process.
pub const REGULAR_OP_COST: u32 = 1;

/// Owner of the remaining-stack-budget register: stack slots still available,
/// decremented on entering more nested work and incremented on unwinding. The
/// embedding host initializes it before guest execution begins.
pub struct StackMeter {
    remaining: u64,
}

/// `a + b`, clamped to `u64::MAX` instead of wrapping when the sum leaves the
/// 64-bit range. The clamping alone never triggers a host notification.
pub open spec fn saturating_sum(a: u64, b: u64) -> u64 {
    if a + b <= u64::MAX {
        (a + b) as u64
    } else {
        u64::MAX
    }
}

/// The stack-budget register after a guarded decrement by `total`:
/// `before - total` when the total fits, and `before` unchanged when it does
/// not.
pub open spec fn budget_after_enter(before: u64, total: u64) -> u64 {
    if total <= before {
        (before - total) as u64
    } else {
        before
    }
}

/// The notifications the budget step of an enter delivers: none when the
/// total fits, and exactly one stack-exhausted report with the exact
/// shortfall `total - before` when it does not.
pub open spec fn enter_events(before: u64, total: u64) -> Seq<Notification> {
    if total <= before {
        Seq::empty()
    } else {
        seq![Notification::StackExhausted { overflow: (total - before) as u64 }]
    }
}

/// The stack-budget register after a guarded increment by `total`:
/// `before + total` when the sum is representable, and `before` unchanged
/// when it would wrap.
pub open spec fn budget_after_leave(before: u64, total: u64) -> u64 {
    if before + total <= u64::MAX {
        (before + total) as u64
    } else {
        before
    }
}

/// The notifications a guarded budget increment delivers: none when the sum
/// is representable, and exactly one unwind-overflowed report whose magnitude
/// is the true excess over the representable range,
/// `total - (u64::MAX - before + 1)`, when it would wrap.
pub open spec fn leave_events(before: u64, total: u64) -> Seq<Notification> {
    if before + total <= u64::MAX {
        Seq::empty()
    } else {
        seq![
            Notification::StackUnwindOverflowed {
                overflow: (total - (u64::MAX - before + 1)) as u64,
            },
        ]
    }
}

/// The gas surcharge for reserving a stack frame: `REGULAR_OP_COST` per 8
/// bytes of frame, rounded up — `((frame_size + 7) / 8) * REGULAR_OP_COST`.
pub open spec fn frame_gas(frame_size: u64) -> u64 {
    (((frame_size + 7) / 8) * (REGULAR_OP_COST as int)) as u64
}

impl StackMeter {
    /// Stack budget remaining in the register.
    pub closed spec fn budget(&self) -> u64 {
        self.remaining
    }

    /// A meter whose register holds `initial_budget`, as the host sets it up
    /// before guest execution begins.
    pub fn new(initial_budget: u64) -> (meter: StackMeter)
        ensures
            meter.budget() == initial_budget,
    {
        StackMeter { remaining: initial_budget }
    }

    /// The remaining stack budget, as the host reads it between metering
    /// calls.
    pub fn remaining(&self) -> (budget: u64)
        ensures
            budget == self.budget(),
    {
        self.remaining
    }

    /// Overwrite the register, as a host re-provisioning the budget between
    /// metering calls does.
    pub fn set_remaining(&mut self, budget: u64)
        ensures
            final(self).budget() == budget,
    {
        self.remaining = budget;
    }

    /// Reserve stack space for entering more nested work and charge gas for
    /// the frame.
    ///
    /// The reservation `operand_size + frame_size` saturates at `u64::MAX`
    /// instead of wrapping, then is deducted from the budget register under
    /// the same guarded policy as gas: on underflow the register is left
    /// untouched and the host hears the exact shortfall. Independently of
    /// that outcome, `frame_gas(frame_size)` is charged through the gas
    /// meter — the frame is paid for whether or not the reservation
    /// succeeded.
    pub fn enter<H: Host>(
        &mut self,
        gas: &mut GasMeter,
        host: &mut H,
        operand_size: u64,
        frame_size: u64,
    )
        requires
            frame_size <= u64::MAX - 7,
        ensures
            final(self).budget() == budget_after_enter(
                old(self).budget(),
                saturating_sum(operand_size, frame_size),
            ),
            final(gas).gas() == gas_after_consume(old(gas).gas(), frame_gas(frame_size)),
            final(host).notified() == old(host).notified() + enter_events(
                old(self).budget(),
                saturating_sum(operand_size, frame_size),
            ) + consume_events(old(gas).gas(), frame_gas(frame_size)),
    {
        let total: u64 = if operand_size <= u64::MAX - frame_size {
            operand_size + frame_size
        } else {
            u64::MAX
        };
        if total <= self.remaining {
            self.remaining = self.remaining - total;
        } else {
            host.on_stack_exhausted(total - self.remaining);
        }
        proof {
            assert(host.notified() =~= old(host).notified() + enter_events(
                old(self).budget(),
                saturating_sum(operand_size, frame_size),
            ));
        }
        let eighths: u64 = (frame_size + 7) / 8;
        proof {
            assert(REGULAR_OP_COST == 1u32);
            assert(eighths * (REGULAR_OP_COST as int) == eighths);
        }
        let charge: u64 = eighths * (REGULAR_OP_COST as u64);
        gas.consume(host, charge);
    }

    /// Release stack space on unwinding.
    ///
    /// The released `operand_size + frame_size` saturates at `u64::MAX`
    /// instead of wrapping, then is added back to the budget register,
    /// guarded: if the sum would wrap past `u64::MAX` — the guest releasing
    /// more stack than the budget model reserved, a bookkeeping
    /// inconsistency — the register is left untouched and the host hears the
    /// exact excess over the representable range.
    pub fn leave<H: Host>(&mut self, host: &mut H, operand_size: u64, frame_size: u64)
        ensures
            final(self).budget() == budget_after_leave(
                old(self).budget(),
                saturating_sum(operand_size, frame_size),
            ),
            final(host).notified() == old(host).notified() + leave_events(
                old(self).budget(),
                saturating_sum(operand_size, frame_size),
            ),
    {
        let total: u64 = if operand_size <= u64::MAX - frame_size {
            operand_size + frame_size
        } else {
            u64::MAX
        };
        if total <= u64::MAX - self.remaining {
            self.remaining = self.remaining + total;
            proof {
                assert(host.notified() =~= host.notified() + leave_events(
                    old(self).budget(),
                    saturating_sum(operand_size, frame_size),
                ));
            }
        } else {
            let excess: u64 = total - (u64::MAX - self.remaining + 1);
            host.on_stack_unwind_overflowed(excess);
            proof {
                assert(host.notified() =~= old(host).notified() + leave_events(
                    old(self).budget(),
                    saturating_sum(operand_size, frame_size),
                ));
            }
        }
    }
}

/// Unwinding with the same operand and frame sizes as a successful stack
/// reservation restores the budget register exactly to its pre-reservation
/// value, and neither the reservation's budget step nor the unwinding
/// delivers any notification.
pub proof fn lemma_leave_restores_enter(before: u64, operand_size: u64, frame_size: u64)
    requires
        saturating_sum(operand_size, frame_size) <= before,
    ensures
        enter_events(before, saturating_sum(operand_size, frame_size)) == Seq::<
            Notification,
        >::empty(),
        budget_after_leave(
            budget_after_enter(before, saturating_sum(operand_size, frame_size)),
            saturating_sum(operand_size, frame_size),
        ) == before,
        leave_events(
            budget_after_enter(before, saturating_sum(operand_size, frame_size)),
            saturating_sum(operand_size, frame_size),
        ) == Seq::<Notification>::empty(),
{
}

} // verus!
