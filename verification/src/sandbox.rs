//! The trust boundary between bytecode and host: every externally visible
//! effect a contract causes passes through one `Sandbox`.
//!
//! Each host operation charges gas before performing its effect, validates
//! whatever the contract supplied, performs the effect, and reports failure
//! as a value rather than aborting — except gas exhaustion, which is fatal
//! to the invocation.

use vstd::prelude::*;
use crate::gas::{GasMeter, HOST_CALL_COST};
use crate::instantiate::Ext;
use crate::memory::Memory;
use crate::result::{Error, ExecReturnValue, ReturnFlags};
use crate::state::{copy_bytes, bytes_eq, State};

verus! {

/// The most topics one event may carry.
pub const MAX_EVENT_TOPICS: usize = 4;

/// The largest topic payload, in bytes.
pub const TOPIC_SIZE_LIMIT: usize = 32;

/// The gas budget an invocation starts with when no transaction overrides
/// it.
pub const DEFAULT_GAS_LIMIT: u64 = 1000000000;

/// Externally supplied per-call parameters, replaced wholesale before an
/// invocation when the caller supplies them and retained otherwise.
#[derive(Clone, Copy, Debug, PartialEq, Eq)]
pub struct Transaction {
    /// The calling account.
    pub caller: [u8; 32],
    /// The value transferred with the call.
    pub value: u64,
    /// The gas budget of the invocation; installing the transaction loads
    /// it into the sandbox's meter.
    pub gas_limit: u64,
}

impl Default for Transaction {
    /// A transaction from the zero account, with no value and the default
    /// gas budget.
    fn default() -> (r: Transaction)
        ensures
            r.caller@ == Seq::new(32, |i: int| 0u8),
            r.value == 0,
            r.gas_limit == DEFAULT_GAS_LIMIT,
    {
        let caller: [u8; 32] = [0u8; 32];
        proof {
            assert(caller@ =~= Seq::new(32, |i: int| 0u8));
        }
        Transaction { caller, value: 0, gas_limit: DEFAULT_GAS_LIMIT }
    }
}

/// One deposited event: its topics and its payload.
#[derive(Debug, PartialEq, Eq)]
pub struct Event {
    pub topics: Vec<Vec<u8>>,
    pub data: Vec<u8>,
}

/// Whether some topic in the list exceeds the size bound.
pub open spec fn has_oversized_topic(ts: Seq<Vec<u8>>) -> bool {
    exists|i: int| 0 <= i < ts.len() && #[trigger] ts[i]@.len() > TOPIC_SIZE_LIMIT
}

/// Whether the list carries the same topic twice.
pub open spec fn has_duplicate_topic(ts: Seq<Vec<u8>>) -> bool {
    exists|i: int, j: int| 0 <= i < j < ts.len() && #[trigger] ts[i]@ == #[trigger] ts[j]@
}

/// Whether everything but the per-call parameters — the transaction and the
/// gas meter it configures — is the same in two sandboxes.
pub open spec fn core_unchanged(pre: Sandbox, post: Sandbox) -> bool {
    &&& post.mem == pre.mem
    &&& post.state == pre.state
    &&& post.input == pre.input
    &&& post.ret == pre.ret
    &&& post.ext == pre.ext
    &&& post.events == pre.events
}

/// The per-call parameters after the optional transaction is installed:
/// replaced wholesale, and its gas budget loaded into the meter, when one is
/// supplied; retained unchanged otherwise.
pub open spec fn tx_installed(pre: Sandbox, post: Sandbox, tx: Option<Transaction>) -> bool {
    match tx {
        Some(t) => post.tx == t && post.gas_meter.gas_left == t.gas_limit,
        None => post.tx == pre.tx && post.gas_meter == pre.gas_meter,
    }
}

/// The sandbox: the single mediator between running bytecode and memory,
/// state, gas and the nested-operation queues.
pub struct Sandbox {
    /// The linear memory shared with the engine.
    pub mem: Memory,
    /// The working copy of the contract's persisted state.
    pub state: State,
    /// The per-call transaction context.
    pub tx: Transaction,
    /// The marshalled input buffer of the pending invocation.
    pub input: Option<Vec<u8>>,
    /// The output the contract recorded through the return-data host call.
    pub ret: Option<ExecReturnValue>,
    /// The invocation's gas meter.
    pub gas_meter: GasMeter,
    /// The queues of nested operations requested so far.
    pub ext: Ext,
    /// The events deposited so far.
    pub events: Vec<Event>,
}

impl Sandbox {
    /// A sandbox over the given memory and state: empty buffers, empty
    /// queues, a default transaction, and the default gas budget.
    pub fn new(mem: Memory, state: State) -> (r: Sandbox)
        ensures
            r.mem == mem,
            r.state == state,
            r.tx.caller@ == Seq::new(32, |i: int| 0u8),
            r.tx.value == 0,
            r.tx.gas_limit == DEFAULT_GAS_LIMIT,
            r.input is None,
            r.ret is None,
            r.gas_meter.gas_left == DEFAULT_GAS_LIMIT,
            r.ext.instantiates@.len() == 0,
            r.ext.calls@.len() == 0,
            r.events@.len() == 0,
    {
        Sandbox {
            mem,
            state,
            tx: Transaction::default(),
            input: None,
            ret: None,
            gas_meter: GasMeter::new(DEFAULT_GAS_LIMIT),
            ext: Ext::new(),
            events: Vec::new(),
        }
    }

    /// Storage read: charges gas, then answers from the working state.
    /// Exhaustion reports `OutOfGas` with no other effect; otherwise the
    /// answer is exactly the state's binding for the key.
    pub fn get_storage(&mut self, key: &[u8; 32]) -> (r: Result<Option<Vec<u8>>, Error>)
        ensures
            final(self).mem == old(self).mem,
            final(self).state == old(self).state,
            final(self).tx == old(self).tx,
            final(self).input == old(self).input,
            final(self).ret == old(self).ret,
            final(self).ext == old(self).ext,
            final(self).events == old(self).events,
            old(self).gas_meter.gas_left < HOST_CALL_COST ==> r == Err::<Option<Vec<u8>>, Error>(
                Error::OutOfGas,
            ) && final(self).gas_meter.gas_left == 0,
            old(self).gas_meter.gas_left >= HOST_CALL_COST ==> final(self).gas_meter.gas_left
                == old(self).gas_meter.gas_left - HOST_CALL_COST && (match r {
                Ok(Some(v)) => old(self).state@.contains_key(key@) && v@ == old(self).state@[key@],
                Ok(None) => !old(self).state@.contains_key(key@),
                Err(_) => false,
            }),
    {
        match self.gas_meter.charge(HOST_CALL_COST) {
            Err(e) => Err(e),
            Ok(()) => Ok(self.state.get(key)),
        }
    }

    /// Storage write: charges gas, then binds the key in the working state.
    /// Exhaustion reports `OutOfGas` and leaves the state unbound.
    pub fn set_storage(&mut self, key: &[u8; 32], value: Vec<u8>) -> (r: Result<(), Error>)
        ensures
            final(self).mem == old(self).mem,
            final(self).tx == old(self).tx,
            final(self).input == old(self).input,
            final(self).ret == old(self).ret,
            final(self).ext == old(self).ext,
            final(self).events == old(self).events,
            old(self).gas_meter.gas_left < HOST_CALL_COST ==> r == Err::<(), Error>(Error::OutOfGas)
                && final(self).gas_meter.gas_left == 0 && final(self).state == old(self).state,
            old(self).gas_meter.gas_left >= HOST_CALL_COST ==> r == Ok::<(), Error>(())
                && final(self).gas_meter.gas_left == old(self).gas_meter.gas_left - HOST_CALL_COST
                && final(self).state@ == old(self).state@.insert(key@, value@),
    {
        match self.gas_meter.charge(HOST_CALL_COST) {
            Err(e) => Err(e),
            Ok(()) => {
                self.state.set(key, value);
                Ok(())
            },
        }
    }

    /// The marshalled input buffer, copied out for the contract.
    pub fn input_data(&self) -> (r: Option<Vec<u8>>)
        ensures
            match r {
                Some(v) => self.input matches Some(i) && v@ == i@,
                None => self.input is None,
            },
    {
        match &self.input {
            None => None,
            Some(v) => Some(copy_bytes(v.as_slice())),
        }
    }

    /// The return-data host call: records `{flags, data}` as the
    /// invocation's explicit output and hands back the non-fatal
    /// `ReturnData` condition that aborts execution — distinct from a trap,
    /// which discards the output buffer.  Exhaustion reports `OutOfGas` and
    /// records nothing.
    pub fn return_data(&mut self, flags: u32, data: Vec<u8>) -> (e: Error)
        ensures
            final(self).mem == old(self).mem,
            final(self).state == old(self).state,
            final(self).tx == old(self).tx,
            final(self).input == old(self).input,
            final(self).ext == old(self).ext,
            final(self).events == old(self).events,
            old(self).gas_meter.gas_left < HOST_CALL_COST ==> e == Error::OutOfGas && final(self).gas_meter.gas_left == 0 && final(self).ret == old(self).ret,
            old(self).gas_meter.gas_left >= HOST_CALL_COST ==> e == Error::ReturnData && final(self).gas_meter.gas_left == old(self).gas_meter.gas_left - HOST_CALL_COST && (final(self).ret matches Some(rv) && rv.flags.bits == flags && rv.data@ == data@),
    {
        match self.gas_meter.charge(HOST_CALL_COST) {
            Err(e) => e,
            Ok(()) => {
                self.ret = Some(ExecReturnValue { flags: ReturnFlags::from_bits(flags), data });
                Error::ReturnData
            },
        }
    }

    /// Event emission: charges gas, validates the topics — too many, a
    /// duplicate, or an oversized one each fail with its own error, in that
    /// order of checks — and then records the event.  A failed emission
    /// records nothing.
    #[verifier::loop_isolation(false)]
    pub fn deposit_event(&mut self, topics: Vec<Vec<u8>>, data: Vec<u8>) -> (r: Result<(), Error>)
        ensures
            final(self).mem == old(self).mem,
            final(self).state == old(self).state,
            final(self).tx == old(self).tx,
            final(self).input == old(self).input,
            final(self).ret == old(self).ret,
            final(self).ext == old(self).ext,
            old(self).gas_meter.gas_left < HOST_CALL_COST ==> r == Err::<(), Error>(Error::OutOfGas)
                && final(self).gas_meter.gas_left == 0 && final(self).events == old(self).events,
            old(self).gas_meter.gas_left >= HOST_CALL_COST ==> final(self).gas_meter.gas_left
                == old(self).gas_meter.gas_left - HOST_CALL_COST && (if topics@.len()
                > MAX_EVENT_TOPICS {
                r == Err::<(), Error>(Error::TooManyTopics) && final(self).events == old(self).events
            } else if has_duplicate_topic(topics@) {
                r == Err::<(), Error>(Error::DuplicateTopics) && final(self).events == old(self).events
            } else if has_oversized_topic(topics@) {
                r == Err::<(), Error>(Error::TopicValueTooLarge) && final(self).events == old(self).events
            } else {
                r == Ok::<(), Error>(()) && final(self).events@.len() == old(self).events@.len() + 1
                    && final(self).events@.drop_last() == old(self).events@ && (final(self).events@.last().topics@ == topics@ && final(self).events@.last().data@ == data@)
            }),
    {
        match self.gas_meter.charge(HOST_CALL_COST) {
            Err(e) => Err(e),
            Ok(()) => {
                if topics.len() > MAX_EVENT_TOPICS {
                    return Err(Error::TooManyTopics);
                }
                let n = topics.len();
                let mut i: usize = 0;
                while i < n
                    invariant
                        0 <= i <= n,
                        n == topics@.len(),
                        forall|a: int, b: int| 0 <= a < b < topics@.len() && a < i
                            ==> topics@[a]@ != topics@[b]@,
                    decreases n - i,
                {
                    let mut j: usize = i + 1;
                    while j < n
                        invariant
                            0 <= i < j <= n,
                            n == topics@.len(),
                            forall|b: int| i < b < j ==> topics@[i as int]@ != topics@[b]@,
                        decreases n - j,
                    {
                        if bytes_eq(topics[i].as_slice(), topics[j].as_slice()) {
                            assert(has_duplicate_topic(topics@));
                            return Err(Error::DuplicateTopics);
                        }
                        j = j + 1;
                    }
                    i = i + 1;
                }
                assert(!has_duplicate_topic(topics@));
                let mut k: usize = 0;
                while k < n
                    invariant
                        0 <= k <= n,
                        n == topics@.len(),
                        forall|a: int| 0 <= a < k ==> #[trigger] topics@[a]@.len()
                            <= TOPIC_SIZE_LIMIT,
                    decreases n - k,
                {
                    if topics[k].len() > TOPIC_SIZE_LIMIT {
                        assert(has_oversized_topic(topics@));
                        return Err(Error::TopicValueTooLarge);
                    }
                    k = k + 1;
                }
                assert(!has_oversized_topic(topics@));
                self.events.push(Event { topics, data });
                proof {
                    assert(self.events@.drop_last() =~= old(self).events@);
                }
                Ok(())
            },
        }
    }
}

} // verus!
