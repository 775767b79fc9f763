//! Queued records of nested contract operations.
//!
//! A running contract that asks for another instantiation or call does not
//! recurse into new bytecode inline: the request is appended to the
//! extension context and drained by the orchestrating layer after the
//! top-level invocation.  Gas carried by an entry is bounded by the parent's
//! remaining gas, so a whole call tree never exceeds the top-level budget.

use vstd::prelude::*;
use crate::gas::GasMeter;
use crate::result::{Error, ExecReturnValue, ReturnFlags};
use crate::sandbox::Sandbox;

verus! {

/// A queued request to instantiate another contract.
#[derive(Debug, PartialEq, Eq)]
pub struct InstantiateEntry {
    pub code_hash: [u8; 32],
    pub endowment: u64,
    pub data: Vec<u8>,
    pub gas_left: u64,
    pub salt: Vec<u8>,
}

/// A queued request to call another contract.
#[derive(Debug, PartialEq, Eq)]
pub struct CallEntry {
    pub dest: [u8; 32],
    pub value: u64,
    pub gas_left: u64,
    pub input: Vec<u8>,
}

/// The per-invocation extension context: the append-only logs of nested
/// operations a running contract requested.
#[derive(Debug, PartialEq, Eq)]
pub struct Ext {
    pub instantiates: Vec<InstantiateEntry>,
    pub calls: Vec<CallEntry>,
}

impl Ext {
    /// An empty context, as each top-level invocation starts with.
    pub fn new() -> (r: Ext)
        ensures
            r.instantiates@ == Seq::<InstantiateEntry>::empty(),
            r.calls@ == Seq::<CallEntry>::empty(),
    {
        Ext { instantiates: Vec::new(), calls: Vec::new() }
    }
}

impl Sandbox {
    /// Queues the instantiation of another contract.  The entry captures the
    /// code hash, the transaction's value as endowment, the input data, the
    /// caller's remaining gas, and the salt for address derivation.  The
    /// captured gas is pre-reserved from the caller's meter at queue time —
    /// the meter is left empty — so the gas spent across a whole call tree
    /// never exceeds the top-level budget.  The nested execution itself is
    /// the orchestrating layer's seam: the immediate answer is the code
    /// hash, an empty non-reverted return value, and no gas used.
    pub fn instantiate(
        &mut self,
        code_hash: [u8; 32],
        gas_meter: &mut GasMeter,
        data: Vec<u8>,
        salt: &[u8],
    ) -> (r: Result<([u8; 32], ExecReturnValue, u32), Error>)
        ensures
            final(self).mem == old(self).mem,
            final(self).state == old(self).state,
            final(self).tx == old(self).tx,
            final(self).input == old(self).input,
            final(self).ret == old(self).ret,
            final(self).gas_meter == old(self).gas_meter,
            final(self).events == old(self).events,
            final(self).ext.calls == old(self).ext.calls,
            final(gas_meter).gas_left == 0,
            final(self).ext.instantiates@.len() == old(self).ext.instantiates@.len() + 1,
            final(self).ext.instantiates@.drop_last() == old(self).ext.instantiates@,
            final(self).ext.instantiates@.last().code_hash@ == code_hash@,
            final(self).ext.instantiates@.last().endowment == old(self).tx.value,
            final(self).ext.instantiates@.last().data@ == data@,
            final(self).ext.instantiates@.last().gas_left == old(gas_meter).gas_left,
            final(self).ext.instantiates@.last().salt@ == salt@,
            r matches Ok((addr, rv, used)) && addr@ == code_hash@ && rv.flags.bits == 0
                && rv.data@ == Seq::<u8>::empty() && used == 0,
    {
        let granted: u64 = gas_meter.gas_left;
        let charged = gas_meter.charge(granted);
        proof {
            assert(charged is Ok);
        }
        let entry = InstantiateEntry {
            code_hash,
            endowment: self.tx.value,
            data,
            gas_left: granted,
            salt: crate::state::copy_bytes(salt),
        };
        self.ext.instantiates.push(entry);
        proof {
            assert(self.ext.instantiates@.drop_last() =~= old(self).ext.instantiates@);
        }
        Ok((code_hash, ExecReturnValue { flags: ReturnFlags::empty(), data: Vec::new() }, 0))
    }

    /// Queues a plain cross-contract call.  The gas granted to the entry is
    /// the requested amount capped at the parent's remaining gas, and is
    /// pre-reserved from the parent's meter at queue time, so the gas spent
    /// across a whole call tree never exceeds the top-level budget.
    pub fn queue_call(&mut self, dest: [u8; 32], value: u64, gas_requested: u64, input: Vec<u8>)
        -> (granted: u64)
        ensures
            final(self).mem == old(self).mem,
            final(self).state == old(self).state,
            final(self).tx == old(self).tx,
            final(self).input == old(self).input,
            final(self).ret == old(self).ret,
            final(self).events == old(self).events,
            final(self).ext.instantiates == old(self).ext.instantiates,
            granted == if gas_requested <= old(self).gas_meter.gas_left {
                gas_requested
            } else {
                old(self).gas_meter.gas_left
            },
            final(self).gas_meter.gas_left == old(self).gas_meter.gas_left - granted,
            final(self).ext.calls@.len() == old(self).ext.calls@.len() + 1,
            final(self).ext.calls@.drop_last() == old(self).ext.calls@,
            final(self).ext.calls@.last().dest@ == dest@,
            final(self).ext.calls@.last().value == value,
            final(self).ext.calls@.last().gas_left == granted,
            final(self).ext.calls@.last().input@ == input@,
    {
        let granted: u64 = if gas_requested <= self.gas_meter.gas_left {
            gas_requested
        } else {
            self.gas_meter.gas_left
        };
        let charged = self.gas_meter.charge(granted);
        proof {
            assert(charged is Ok);
        }
        let entry = CallEntry { dest, value, gas_left: granted, input };
        self.ext.calls.push(entry);
        proof {
            assert(self.ext.calls@.drop_last() =~= old(self).ext.calls@);
        }
        granted
    }
}

} // verus!
