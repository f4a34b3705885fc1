use vstd::prelude::*;

use crate::gas::{GasMeter, consume_events, gas_after_consume};
use crate::host::{Host, Notification};

verus! {

/// Whether the product `count * linear` exceeds the 64-bit range.
pub open spec fn mul_overflows(count: u32, linear: u64) -> bool {
    (count as int) * (linear as int) > u64::MAX
}

/// The product `count * linear`, substituted by `u64::MAX` when it does not
/// fit: a wrapped product has maxed out the 64-bit space.
pub open spec fn clamped_product(count: u32, linear: u64) -> u64 {
    if mul_overflows(count, linear) {
        u64::MAX
    } else {
        ((count as int) * (linear as int)) as u64
    }
}

/// Whether the sum `constant + product` (with the product already clamped)
/// exceeds the 64-bit range.
pub open spec fn add_overflows(count: u32, linear: u64, constant: u64) -> bool {
    constant + clamped_product(count, linear) > u64::MAX
}

/// The scalar gas amount a linear cost description turns into:
/// `constant + count * linear` when it fits in 64 bits, and `u64::MAX` when
/// either the multiplication or the addition overflows — an amount guaranteed
/// to exhaust any remaining gas.
pub open spec fn linear_charge(count: u32, linear: u64, constant: u64) -> u64 {
    if add_overflows(count, linear, constant) {
        u64::MAX
    } else {
        (constant + clamped_product(count, linear)) as u64
    }
}

/// The parameters-overflowed reports a linear charge delivers before the gas
/// charge itself: one for an overflowing multiplication, one for an
/// overflowing addition, each carrying the original, untouched parameters.
/// Both can fire for a single call.
pub open spec fn overflow_events(count: u32, linear: u64, constant: u64) -> Seq<Notification> {
    let report = Notification::CostParametersOverflowed { count, linear, constant };
    if mul_overflows(count, linear) {
        if add_overflows(count, linear, constant) {
            seq![report, report]
        } else {
            seq![report]
        }
    } else {
        if add_overflows(count, linear, constant) {
            seq![report]
        } else {
            Seq::empty()
        }
    }
}

/// Convert a linear cost description `constant + count * linear` into one
/// scalar gas amount and deduct it through the gas meter.
///
/// Either arithmetic step may overflow 64 bits when the parameters are
/// adversarially large; each overflowing step notifies the host with the
/// original, untouched parameters and substitutes `u64::MAX`, so the charge
/// degrades to "the maximum possible amount" rather than a meaningless
/// wrapped number. The final amount — computed or substituted — is then
/// handed to `GasMeter::consume`, whose own exhaustion report may follow the
/// parameter reports.
pub fn charge_linear<H: Host>(
    meter: &mut GasMeter,
    host: &mut H,
    count: u32,
    linear: u64,
    constant: u64,
)
    ensures
        final(meter).gas() == gas_after_consume(
            old(meter).gas(),
            linear_charge(count, linear, constant),
        ),
        final(host).notified() == old(host).notified() + overflow_events(count, linear, constant)
            + consume_events(old(meter).gas(), linear_charge(count, linear, constant)),
{
    let product: u64 = match (count as u64).checked_mul(linear) {
        Some(product) => product,
        None => {
            host.on_cost_parameters_overflowed(count, linear, constant);
            u64::MAX
        },
    };
    let gas: u64 = match constant.checked_add(product) {
        Some(gas) => gas,
        None => {
            host.on_cost_parameters_overflowed(count, linear, constant);
            u64::MAX
        },
    };
    proof {
        assert(gas == linear_charge(count, linear, constant));
        assert(host.notified() =~= old(host).notified() + overflow_events(
            count,
            linear,
            constant,
        ));
    }
    meter.consume(host, gas);
}

/// An in-range linear cost behaves exactly like a direct `consume` of
/// `constant + count * linear`: the charge is that very sum, and no
/// parameters-overflowed report is delivered.
pub proof fn lemma_linear_charge_in_range(count: u32, linear: u64, constant: u64)
    requires
        (count as int) * (linear as int) <= u64::MAX,
        constant + (count as int) * (linear as int) <= u64::MAX,
    ensures
        linear_charge(count, linear, constant) == constant + (count as int) * (linear as int),
        overflow_events(count, linear, constant) == Seq::<Notification>::empty(),
{
}

/// Whenever `count * linear` or `constant + count * linear` leaves the 64-bit
/// range, every parameters-overflowed report carries the original parameters,
/// at least one such report is delivered, and the gas charge degrades to
/// `u64::MAX`.
pub proof fn lemma_linear_charge_overflow(count: u32, linear: u64, constant: u64)
    requires
        (count as int) * (linear as int) > u64::MAX || constant + (count as int) * (
        linear as int) > u64::MAX,
    ensures
        linear_charge(count, linear, constant) == u64::MAX,
        overflow_events(count, linear, constant).len() >= 1,
        forall|i: int|
            0 <= i < overflow_events(count, linear, constant).len()
                ==> overflow_events(count, linear, constant)[i] == (
            Notification::CostParametersOverflowed { count, linear, constant }),
{
}

} // verus!
