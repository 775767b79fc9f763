//! Gas accounting: a monotonically decreasing counter with a configured
//! initial budget.

use vstd::prelude::*;
use crate::result::Error;

verus! {

/// The flat cost a host function debits before performing its effect.
pub const HOST_CALL_COST: u64 = 1;

/// What one debit leaves on a meter: the remainder when the budget
/// suffices, and an exhausted meter otherwise.
pub open spec fn charge_outcome(gas: u64, amount: u64) -> u64 {
    if amount <= gas {
        (gas - amount) as u64
    } else {
        0
    }
}

/// What a whole sequence of debits, applied in order, leaves on a meter.
pub open spec fn charges_outcome(gas: u64, amounts: Seq<u64>) -> u64
    decreases amounts.len(),
{
    if amounts.len() == 0 {
        gas
    } else {
        charges_outcome(charge_outcome(gas, amounts[0]), amounts.skip(1))
    }
}

/// A monotonically decreasing gas counter.  Every metered operation debits
/// it; exhausting it is fatal to the current invocation.
#[derive(Clone, Copy, Debug, PartialEq, Eq, Structural)]
pub struct GasMeter {
    pub gas_left: u64,
}

impl GasMeter {
    /// A meter holding the given initial budget.
    pub fn new(gas_left: u64) -> (r: GasMeter)
        ensures
            r.gas_left == gas_left,
    {
        GasMeter { gas_left }
    }

    /// Debits `amount` when the remaining budget suffices; otherwise leaves
    /// the meter at zero and reports exhaustion.  The remaining budget never
    /// grows, and an operation that cannot be paid for is never partially
    /// applied: the caller sees `OutOfGas` before any effect.
    pub fn charge(&mut self, amount: u64) -> (r: Result<(), Error>)
        ensures
            final(self).gas_left == charge_outcome(old(self).gas_left, amount),
            final(self).gas_left <= old(self).gas_left,
            amount <= old(self).gas_left <==> r == Ok::<(), Error>(()),
            amount > old(self).gas_left ==> r == Err::<(), Error>(Error::OutOfGas)
                && final(self).gas_left == 0,
    {
        if amount <= self.gas_left {
            self.gas_left = self.gas_left - amount;
            Ok(())
        } else {
            self.gas_left = 0;
            Err(Error::OutOfGas)
        }
    }
}

/// Gas monotonicity: however many metered operations run, and whatever each
/// costs, the gas left afterwards never exceeds the gas left before — and it
/// is a `u64`, so it is never negative.
pub proof fn lemma_gas_monotone(gas: u64, amounts: Seq<u64>)
    ensures
        charges_outcome(gas, amounts) <= gas,
    decreases amounts.len(),
{
    if amounts.len() > 0 {
        lemma_gas_monotone(charge_outcome(gas, amounts[0]), amounts.skip(1));
    }
}

} // verus!
