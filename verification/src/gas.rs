use vstd::prelude::*;

use crate::host::{Host, Notification};

verus! {

/// Owner of the remaining-gas register. The register is only ever decremented
/// by the metering routines; the embedding host initializes it before guest
/// execution begins and may read or overwrite it between calls.
pub struct GasMeter {
    remaining: u64,
}

/// The gas register after a guarded decrement: `before - amount` when the
/// amount fits, and `before` unchanged (never clamped to zero) when it does
/// not.
pub open spec fn gas_after_consume(before: u64, amount: u64) -> u64 {
    if amount <= before {
        (before - amount) as u64
    } else {
        before
    }
}

/// The notifications a guarded gas decrement delivers: none when the amount
/// fits, and exactly one gas-exhausted report with the exact shortfall
/// `amount - before` when it does not.
pub open spec fn consume_events(before: u64, amount: u64) -> Seq<Notification> {
    if amount <= before {
        Seq::empty()
    } else {
        seq![Notification::GasExhausted { overflow: (amount - before) as u64 }]
    }
}

impl GasMeter {
    /// Gas remaining in the register.
    pub closed spec fn gas(&self) -> u64 {
        self.remaining
    }

    /// A meter whose register holds `initial_gas`, as the host sets it up
    /// before guest execution begins.
    pub fn new(initial_gas: u64) -> (meter: GasMeter)
        ensures
            meter.gas() == initial_gas,
    {
        GasMeter { remaining: initial_gas }
    }

    /// The remaining gas, as the host reads it between metering calls.
    pub fn remaining(&self) -> (gas: u64)
        ensures
            gas == self.gas(),
    {
        self.remaining
    }

    /// Overwrite the register, as a host refilling (or draining) the budget
    /// between metering calls does.
    pub fn set_remaining(&mut self, gas: u64)
        ensures
            final(self).gas() == gas,
    {
        self.remaining = gas;
    }

    /// Deduct `amount` from the register, guarded: the single choke point
    /// through which every gas charge in the system passes.
    ///
    /// If `amount` fits, the register shrinks by `amount` and the host hears
    /// nothing. If it does not, the register is left untouched and the host is
    /// notified synchronously with the exact shortfall `amount - before`; the
    /// callback may return (the caller resumes with the register at its
    /// pre-call value) or diverge.
    pub fn consume<H: Host>(&mut self, host: &mut H, amount: u64)
        ensures
            final(self).gas() == gas_after_consume(old(self).gas(), amount),
            final(host).notified() == old(host).notified() + consume_events(
                old(self).gas(),
                amount,
            ),
            amount <= old(self).gas() ==> final(self).gas() == old(self).gas() - amount
                && final(host).notified() == old(host).notified(),
            amount > old(self).gas() ==> final(self).gas() == old(self).gas()
                && final(host).notified() == old(host).notified().push(
                Notification::GasExhausted { overflow: (amount - old(self).gas()) as u64 },
            ),
    {
        if amount <= self.remaining {
            self.remaining = self.remaining - amount;
            proof {
                assert(host.notified() =~= host.notified() + consume_events(
                    old(self).gas(),
                    amount,
                ));
            }
        } else {
            host.on_gas_exhausted(amount - self.remaining);
            proof {
                assert(host.notified() =~= old(host).notified() + consume_events(
                    old(self).gas(),
                    amount,
                ));
            }
        }
    }
}

} // verus!
