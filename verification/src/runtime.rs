//! The runtime: one loaded contract, orchestrated end to end.
//!
//! `new` computes memory limits from the module's own import declarations,
//! loads or creates the contract's state, and binds the sandbox and the
//! engine.  `deploy` and `call` resolve a method against the metadata,
//! marshal the arguments into a selector-prefixed payload, run the engine,
//! and normalize the outcome; every outcome but success leaves the retained
//! working state as it was before the invocation began.  `flush` is the only
//! point at which that state becomes durable.

use vstd::prelude::*;
use crate::engine::Engine;
use crate::memory::{Memory, MAX_PAGES};
use crate::metadata::{first_method, Metadata};
use crate::result::Error;
use crate::gas::GasMeter;
use crate::sandbox::{core_unchanged, tx_installed, Sandbox, Transaction, DEFAULT_GAS_LIMIT};
use crate::state::State;
use crate::storage::Storage;
use crate::util::{hex_bytes, is_hex, parse_args, parse_code_hash, parse_hex_field};
use crate::wasm::{scan_imports, spec_scan_module, MemoryImportScan};

verus! {

/// Whether a metadata's hash field is a `0x`-prefixed 32-byte hex string.
pub open spec fn hash_field_ok(meta: Metadata) -> bool {
    &&& meta.source.hash@.len() == 66
    &&& meta.source.hash@[0] == 48
    &&& meta.source.hash@[1] == 120
    &&& is_hex(meta.source.hash@.skip(2))
}

/// The code hash a metadata names.
pub open spec fn spec_code_hash(meta: Metadata) -> Seq<u8> {
    hex_bytes(meta.source.hash@.skip(2))
}

/// Whether a metadata's module field is a `0x`-prefixed hex string.
pub open spec fn wasm_field_ok(meta: Metadata) -> bool {
    &&& meta.source.wasm@.len() >= 2
    &&& meta.source.wasm@[0] == 48
    &&& meta.source.wasm@[1] == 120
    &&& is_hex(meta.source.wasm@.skip(2))
}

/// The module bytes a metadata carries.
pub open spec fn spec_wasm_bytes(meta: Metadata) -> Seq<u8> {
    hex_bytes(meta.source.wasm@.skip(2))
}

/// One loaded contract: its sandbox, its engine instance, its metadata, and
/// the storage its state persists to.
pub struct Runtime<S: Storage, E: Engine> {
    pub sandbox: Sandbox,
    pub instance: E,
    pub metadata: Metadata,
    pub storage: S,
}

/// What a freshly built sandbox looks like: memory sized from the module's
/// declared import bounds, state loaded from `store` under the metadata's
/// code hash — or fresh where none is stored — and empty per-invocation
/// buffers and queues.
pub open spec fn sandbox_initialized(
    sandbox: Sandbox,
    module: Seq<u8>,
    meta: Metadata,
    store: Map<Seq<u8>, Map<Seq<u8>, Seq<u8>>>,
) -> bool {
    &&& (match spec_scan_module(module) {
        MemoryImportScan::Limits(min, max) => sandbox.mem.spec_min_pages() == min
            && sandbox.mem.spec_max_pages() == max,
        _ => false,
    })
    &&& hash_field_ok(meta)
    &&& sandbox.state@ == if store.contains_key(spec_code_hash(meta)) {
        store[spec_code_hash(meta)]
    } else {
        Map::<Seq<u8>, Seq<u8>>::empty()
    }
    &&& sandbox.input is None
    &&& sandbox.ret is None
    &&& sandbox.gas_meter.gas_left == DEFAULT_GAS_LIMIT
    &&& sandbox.ext.instantiates@.len() == 0
    &&& sandbox.ext.calls@.len() == 0
    &&& sandbox.events@.len() == 0
}

/// Settles one `call` invocation from what the engine left behind.  An
/// explicit output recorded through the return-data host call is handed to
/// the caller; if its revert flag is set, the working state is first put
/// back to the pre-invocation `snapshot` — a revert always yields the state
/// exactly as it was, however many writes preceded it.  Without an explicit
/// output, an engine failure restores the snapshot and reports
/// `CallContractFailed`, and a silent success returns an empty output.
pub fn settle_call_outcome(sandbox: &mut Sandbox, invoke_failed: bool, snapshot: State) -> (r:
    Result<Vec<u8>, Error>)
    ensures
        final(sandbox).mem == old(sandbox).mem,
        final(sandbox).tx == old(sandbox).tx,
        final(sandbox).input == old(sandbox).input,
        final(sandbox).gas_meter == old(sandbox).gas_meter,
        final(sandbox).ext == old(sandbox).ext,
        final(sandbox).events == old(sandbox).events,
        final(sandbox).ret is None,
        old(sandbox).ret matches Some(rv) ==> (r matches Ok(data) && data@ == rv.data@) && (
        rv.flags.is_revert() ==> final(sandbox).state@ == snapshot@) && (!rv.flags.is_revert()
            ==> final(sandbox).state == old(sandbox).state),
        old(sandbox).ret is None && invoke_failed ==> r == Err::<Vec<u8>, Error>(
            Error::CallContractFailed,
        ) && final(sandbox).state@ == snapshot@,
        old(sandbox).ret is None && !invoke_failed ==> (r matches Ok(data) && data@
            == Seq::<u8>::empty()) && final(sandbox).state == old(sandbox).state,
{
    match sandbox.ret.take() {
        Some(rv) => {
            if rv.flags.reverted() {
                sandbox.state = snapshot;
            }
            Ok(rv.data)
        },
        None => {
            if invoke_failed {
                sandbox.state = snapshot;
                Err(Error::CallContractFailed)
            } else {
                Ok(Vec::new())
            }
        },
    }
}

impl<S: Storage, E: Engine> Runtime<S, E> {
    /// The model of the storage this runtime persists to.
    pub open spec fn storage_model(&self) -> Map<Seq<u8>, Map<Seq<u8>, Seq<u8>>> {
        self.storage.model()
    }

    /// Builds a runtime over raw module bytes: scans the module's own import
    /// declarations for memory limits, allocates the memory, loads prior
    /// state for the metadata's code hash — or creates fresh state — and
    /// binds the engine to the module.  Each setup step that fails names its
    /// own error.
    pub fn new(b: &[u8], metadata: Metadata, storage: S, instance: E) -> (r: Result<
        Runtime<S, E>,
        Error,
    >)
        ensures
            spec_scan_module(b@) is Malformed ==> r == Err::<Runtime<S, E>, Error>(
                Error::ParseWasmModuleFailed,
            ),
            spec_scan_module(b@) is NoLimits ==> r == Err::<Runtime<S, E>, Error>(
                Error::CalculateMemoryLimitFailed,
            ),
            spec_scan_module(b@) matches MemoryImportScan::Limits(min, max) ==> {
                &&& !(min <= max <= MAX_PAGES) ==> r == Err::<Runtime<S, E>, Error>(
                    Error::AllocMemoryFailed,
                )
                &&& min <= max <= MAX_PAGES && !hash_field_ok(metadata) ==> r == Err::<
                    Runtime<S, E>,
                    Error,
                >(Error::DecodeContractFailed)
                &&& min <= max <= MAX_PAGES && hash_field_ok(metadata) && r is Err ==> r == Err::<
                    Runtime<S, E>,
                    Error,
                >(Error::InitModuleFailed)
            },
            r matches Ok(rt) ==> rt.metadata == metadata && rt.storage_model() == storage.model()
                && sandbox_initialized(rt.sandbox, b@, metadata, storage.model()),
    {
        let (min_pages, max_pages) = match scan_imports(b) {
            MemoryImportScan::Malformed => {
                return Err(Error::ParseWasmModuleFailed);
            },
            MemoryImportScan::NoLimits => {
                return Err(Error::CalculateMemoryLimitFailed);
            },
            MemoryImportScan::Limits(min, max) => (min, max),
        };
        let mem = match Memory::new(min_pages, max_pages) {
            Err(_) => {
                return Err(Error::AllocMemoryFailed);
            },
            Ok(m) => m,
        };
        let code_hash = match parse_code_hash(metadata.source.hash.as_slice()) {
            Err(e) => {
                return Err(e);
            },
            Ok(h) => h,
        };
        let state = match storage.get(&code_hash) {
            Some(st) => st,
            None => storage.new_state(),
        };
        let sandbox = Sandbox::new(mem, state);
        let mut instance = instance;
        match instance.bind(b) {
            Err(_) => {
                return Err(Error::InitModuleFailed);
            },
            Ok(()) => {},
        }
        Ok(Runtime { sandbox, instance, metadata, storage })
    }

    /// Builds a runtime from a metadata whose module field carries the
    /// code: the field is hex-decoded and handed to [`Runtime::new`].
    pub fn from_metadata_and_storage(metadata: Metadata, storage: S, instance: E) -> (r: Result<
        Runtime<S, E>,
        Error,
    >)
        ensures
            !wasm_field_ok(metadata) ==> r == Err::<Runtime<S, E>, Error>(
                Error::DecodeContractFailed,
            ),
            wasm_field_ok(metadata) && spec_scan_module(spec_wasm_bytes(metadata)) is Malformed
                ==> r == Err::<Runtime<S, E>, Error>(Error::ParseWasmModuleFailed),
            wasm_field_ok(metadata) && spec_scan_module(spec_wasm_bytes(metadata)) is NoLimits
                ==> r == Err::<Runtime<S, E>, Error>(Error::CalculateMemoryLimitFailed),
            wasm_field_ok(metadata) ==> (spec_scan_module(spec_wasm_bytes(metadata)) matches
                MemoryImportScan::Limits(min, max) ==> {
                &&& !(min <= max <= MAX_PAGES) ==> r == Err::<Runtime<S, E>, Error>(
                    Error::AllocMemoryFailed,
                )
                &&& min <= max <= MAX_PAGES && !hash_field_ok(metadata) ==> r == Err::<
                    Runtime<S, E>,
                    Error,
                >(Error::DecodeContractFailed)
                &&& min <= max <= MAX_PAGES && hash_field_ok(metadata) && r is Err ==> r == Err::<
                    Runtime<S, E>,
                    Error,
                >(Error::InitModuleFailed)
            }),
            r matches Ok(rt) ==> wasm_field_ok(metadata) && rt.metadata == metadata
                && rt.storage_model() == storage.model() && sandbox_initialized(
                rt.sandbox,
                spec_wasm_bytes(metadata),
                metadata,
                storage.model(),
            ),
    {
        let wasm = match parse_hex_field(metadata.source.wasm.as_slice()) {
            Err(e) => {
                return Err(e);
            },
            Ok(v) => v,
        };
        Self::new(wasm.as_slice(), metadata, storage, instance)
    }

    /// Deploys the contract: installs the transaction, when one is supplied,
    /// wholesale — its gas budget loading the meter — then resolves `method`
    /// against the constructor table, marshals `args` behind its selector,
    /// installs the payload as the input buffer, and invokes the module's
    /// deploy export.  An unknown
    /// method, a wrong argument count, and an engine failure each name their
    /// own error, and every failure leaves the working state exactly as it
    /// was before the invocation.
    pub fn deploy(&mut self, method: &str, args: &Vec<Vec<u8>>, tx: Option<Transaction>) -> (r:
        Result<(), Error>)
        ensures
            final(self).metadata == old(self).metadata,
            final(self).storage_model() == old(self).storage_model(),
            r is Err ==> final(self).sandbox.state@ == old(self).sandbox.state@,
            (r matches Err(e) && (e matches Error::GetMethodFailed { .. } || e
                == Error::WrongArgumentLength)) ==> core_unchanged(
                old(self).sandbox,
                final(self).sandbox,
            ) && tx_installed(old(self).sandbox, final(self).sandbox, tx),
            first_method(old(self).metadata.constructors@, method@) is None <==> (r matches Err(e)
                && e matches Error::GetMethodFailed { name } && name@ == method@),
            first_method(old(self).metadata.constructors@, method@) matches Some(def) ==> (args@.len()
                != def.arg_types@.len() <==> r == Err::<(), Error>(Error::WrongArgumentLength)),
            r matches Err(e) ==> (e matches Error::GetMethodFailed { name } || e
                == Error::WrongArgumentLength || e == Error::DeployContractFailed),
    {
        match tx {
            Some(t) => {
                self.sandbox.tx = t;
                self.sandbox.gas_meter = GasMeter::new(t.gas_limit);
            },
            None => {},
        }
        let idx = match self.metadata.constructor(method) {
            None => {
                return Err(Error::GetMethodFailed { name: method.to_owned() });
            },
            Some(i) => i,
        };
        let def = &self.metadata.constructors[idx];
        let payload = match parse_args(&def.selector, args, &def.arg_types) {
            Err(e) => {
                return Err(e);
            },
            Ok(p) => p,
        };
        let snapshot = self.sandbox.state.duplicate();
        self.sandbox.input = Some(payload);
        self.sandbox.ret = None;
        match self.instance.invoke("deploy", &mut self.sandbox) {
            Ok(()) => Ok(()),
            Err(_) => {
                self.sandbox.state = snapshot;
                Err(Error::DeployContractFailed)
            },
        }
    }

    /// Calls the contract: installs the transaction, when one is supplied,
    /// wholesale — its gas budget loading the meter — then resolves `method`
    /// against the message table, marshals `args` behind its selector,
    /// invokes the module's call export, and settles the outcome through
    /// [`settle_call_outcome`]: an
    /// explicit output is returned to the caller — with the working state
    /// put back if the callee reverted — and every error leaves the working
    /// state exactly as it was before the invocation.
    pub fn call(&mut self, method: &str, args: &Vec<Vec<u8>>, tx: Option<Transaction>) -> (r:
        Result<Vec<u8>, Error>)
        ensures
            final(self).metadata == old(self).metadata,
            final(self).storage_model() == old(self).storage_model(),
            r is Err ==> final(self).sandbox.state@ == old(self).sandbox.state@,
            r is Ok ==> final(self).sandbox.ret is None,
            (r matches Err(e) && (e matches Error::GetMethodFailed { .. } || e
                == Error::WrongArgumentLength)) ==> core_unchanged(
                old(self).sandbox,
                final(self).sandbox,
            ) && tx_installed(old(self).sandbox, final(self).sandbox, tx),
            first_method(old(self).metadata.messages@, method@) is None <==> (r matches Err(e)
                && e matches Error::GetMethodFailed { name } && name@ == method@),
            first_method(old(self).metadata.messages@, method@) matches Some(def) ==> (args@.len()
                != def.arg_types@.len() <==> r == Err::<Vec<u8>, Error>(
                Error::WrongArgumentLength,
            )),
            r matches Err(e) ==> (e matches Error::GetMethodFailed { name } || e
                == Error::WrongArgumentLength || e == Error::CallContractFailed),
    {
        match tx {
            Some(t) => {
                self.sandbox.tx = t;
                self.sandbox.gas_meter = GasMeter::new(t.gas_limit);
            },
            None => {},
        }
        let idx = match self.metadata.message(method) {
            None => {
                return Err(Error::GetMethodFailed { name: method.to_owned() });
            },
            Some(i) => i,
        };
        let def = &self.metadata.messages[idx];
        let payload = match parse_args(&def.selector, args, &def.arg_types) {
            Err(e) => {
                return Err(e);
            },
            Ok(p) => p,
        };
        let snapshot = self.sandbox.state.duplicate();
        self.sandbox.input = Some(payload);
        self.sandbox.ret = None;
        let invoked = self.instance.invoke("call", &mut self.sandbox);
        settle_call_outcome(&mut self.sandbox, invoked.is_err(), snapshot)
    }

    /// Persists the sandbox's current state to storage under the metadata's
    /// code hash — the only point at which in-memory contract state becomes
    /// durable.  The sandbox itself is unchanged.
    pub fn flush(&mut self) -> (r: Result<(), Error>)
        ensures
            final(self).metadata == old(self).metadata,
            final(self).sandbox == old(self).sandbox,
            !hash_field_ok(old(self).metadata) ==> r == Err::<(), Error>(
                Error::DecodeContractFailed,
            ) && final(self).storage_model() == old(self).storage_model(),
            hash_field_ok(old(self).metadata) ==> match r {
                Ok(_) => final(self).storage_model() == old(self).storage_model().insert(
                    spec_code_hash(old(self).metadata),
                    old(self).sandbox.state@,
                ),
                Err(e) => e == Error::SetStorageFailed && final(self).storage_model() == old(
                    self,
                ).storage_model(),
            },
    {
        let code_hash = match parse_code_hash(self.metadata.source.hash.as_slice()) {
            Err(e) => {
                return Err(e);
            },
            Ok(h) => h,
        };
        self.storage.set(&code_hash, self.sandbox.state.duplicate())
    }
}

} // verus!
