use vstd::prelude::*;

verus! {

/// One report delivered to the embedding host. Every budget violation in the
/// metering core is announced through exactly one of these, always carrying
/// the exact magnitude of the violation (never a wrapped or clamped number).
#[derive(Clone, Copy, Debug, PartialEq, Eq, Structural)]
pub enum Notification {
    /// A gas decrement would have gone below zero; `overflow` is the exact
    /// shortfall `amount - remaining`.
    GasExhausted { overflow: u64 },
    /// The linear cost formula `constant + count * linear` does not fit in 64
    /// bits; the original, untouched parameters are reported so the host can
    /// log or bound them.
    CostParametersOverflowed { count: u32, linear: u64, constant: u64 },
    /// A stack-budget decrement would have gone below zero; `overflow` is the
    /// exact shortfall.
    StackExhausted { overflow: u64 },
    /// A stack-budget increment would have wrapped past `u64::MAX`; `overflow`
    /// is the exact amount by which the sum would have exceeded the
    /// representable range. This signals a bookkeeping inconsistency, not
    /// resource pressure.
    StackUnwindOverflowed { overflow: u64 },
}

/// The notification callbacks an embedding host supplies when it constructs
/// the meters. Each callback takes only plain integers, returns nothing, and
/// is permitted to diverge (trap or terminate the whole execution) instead of
/// returning; the metering routines assume nothing about which occurs and
/// need no cleanup after a callback.
///
/// `notified` is the host's own model of the notifications it has received so
/// far, oldest first; each callback appends exactly the report it was handed.
pub trait Host {
    /// The notifications delivered to this host so far, oldest first.
    /// An implementation proved against the callback contracts overrides
    /// this with its own model; the default stands for hosts that live
    /// outside the verifier's view, such as a foreign-function boundary.
    open spec fn notified(&self) -> Seq<Notification> {
        Seq::empty()
    }

    /// Called when a gas decrement would go below zero, with the exact
    /// shortfall.
    fn on_gas_exhausted(&mut self, overflow: u64)
        ensures
            final(self).notified() == old(self).notified().push(
                Notification::GasExhausted { overflow },
            ),
    ;

    /// Called when the linear cost formula overflows 64 bits, with the
    /// original, untouched parameters.
    fn on_cost_parameters_overflowed(&mut self, count: u32, linear: u64, constant: u64)
        ensures
            final(self).notified() == old(self).notified().push(
                Notification::CostParametersOverflowed { count, linear, constant },
            ),
    ;

    /// Called when a stack-budget decrement would go below zero, with the
    /// exact shortfall.
    fn on_stack_exhausted(&mut self, overflow: u64)
        ensures
            final(self).notified() == old(self).notified().push(
                Notification::StackExhausted { overflow },
            ),
    ;

    /// Called when a stack-budget increment would wrap past `u64::MAX`, with
    /// the exact excess over the representable range.
    fn on_stack_unwind_overflowed(&mut self, overflow: u64)
        ensures
            final(self).notified() == old(self).notified().push(
                Notification::StackUnwindOverflowed { overflow },
            ),
    ;
}

/// A host that only records what it is told, for embedders that inspect the
/// reports after the fact. It also witnesses that the `Host` contract is
/// satisfiable by a verified implementation.
pub struct RecordingHost {
    log: Vec<Notification>,
}

impl RecordingHost {
    /// A fresh host with an empty notification log.
    pub fn new() -> (host: RecordingHost)
        ensures
            host.notified() == Seq::<Notification>::empty(),
    {
        RecordingHost { log: Vec::new() }
    }

    /// The notifications recorded so far, oldest first.
    pub fn notifications(&self) -> (log: &Vec<Notification>)
        ensures
            log@ == self.notified(),
    {
        &self.log
    }
}

impl Host for RecordingHost {
    closed spec fn notified(&self) -> Seq<Notification> {
        self.log@
    }

    fn on_gas_exhausted(&mut self, overflow: u64) {
        self.log.push(Notification::GasExhausted { overflow });
    }

    fn on_cost_parameters_overflowed(&mut self, count: u32, linear: u64, constant: u64) {
        self.log.push(Notification::CostParametersOverflowed { count, linear, constant });
    }

    fn on_stack_exhausted(&mut self, overflow: u64) {
        self.log.push(Notification::StackExhausted { overflow });
    }

    fn on_stack_unwind_overflowed(&mut self, overflow: u64) {
        self.log.push(Notification::StackUnwindOverflowed { overflow });
    }
}

} // verus!
