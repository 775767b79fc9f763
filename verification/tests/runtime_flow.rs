//! End-to-end runtime flows over a scripted engine: deploy marshalling,
//! unknown-method resolution, explicit return data, revert isolation, and
//! round-trip persistence.

use ceres::engine::Engine;
use ceres::metadata::{Metadata, MethodDef, Source};
use ceres::result::Error;
use ceres::runtime::Runtime;
use ceres::sandbox::Sandbox;
use ceres::storage::{MemoryStorage, Storage};

/// What a scripted engine should do when invoked.
enum Script {
    /// Record the export name and the input buffer, do nothing else.
    Record,
    /// End execution through the return-data host call.
    Return { flags: u32, data: Vec<u8> },
    /// Write a storage key, then end execution through return data.
    WriteThenReturn { key: [u8; 32], value: Vec<u8>, flags: u32, data: Vec<u8> },
    /// Trap.
    Trap,
}

struct ScriptedEngine {
    script: Script,
    bind_ok: bool,
    invoked: Vec<String>,
    seen_input: Option<Vec<u8>>,
}

impl ScriptedEngine {
    fn new(script: Script) -> ScriptedEngine {
        ScriptedEngine { script, bind_ok: true, invoked: Vec::new(), seen_input: None }
    }
}

impl Engine for ScriptedEngine {
    fn bind(&mut self, _module: &[u8]) -> Result<(), Error> {
        if self.bind_ok {
            Ok(())
        } else {
            Err(Error::InitModuleFailed)
        }
    }

    fn invoke(&mut self, export: &str, sandbox: &mut Sandbox) -> Result<(), Error> {
        self.invoked.push(export.to_string());
        self.seen_input = sandbox.input_data();
        match &self.script {
            Script::Record => Ok(()),
            Script::Return { flags, data } => {
                let e = sandbox.return_data(*flags, data.clone());
                Err(e)
            }
            Script::WriteThenReturn { key, value, flags, data } => {
                sandbox.set_storage(key, value.clone()).unwrap();
                let e = sandbox.return_data(*flags, data.clone());
                Err(e)
            }
            Script::Trap => Err(Error::ExecuteFailed(ceres::result::ReturnCode::CalleeTrapped)),
        }
    }
}

const SELECTOR: [u8; 4] = [0x9b, 0xae, 0x9d, 0x5e];

fn module_bytes() -> Vec<u8> {
    let mut m = vec![0x00, 0x61, 0x73, 0x6d, 0x01, 0x00, 0x00, 0x00];
    let payload = vec![
        1, 3, b'e', b'n', b'v', 6, b'm', b'e', b'm', b'o', b'r', b'y', 2, 1, 1, 4,
    ];
    m.push(2);
    m.push(payload.len() as u8);
    m.extend_from_slice(&payload);
    m
}

fn metadata() -> Metadata {
    let mut hash = b"0x".to_vec();
    hash.extend_from_slice("ab".repeat(32).as_bytes());
    Metadata {
        source: Source { wasm: b"0x".to_vec(), hash },
        constructors: vec![MethodDef {
            name: "default".to_string(),
            selector: SELECTOR,
            arg_types: vec!["bool".to_string()],
        }],
        messages: vec![MethodDef {
            name: "get".to_string(),
            selector: [0x01, 0x02, 0x03, 0x04],
            arg_types: vec![],
        }],
    }
}

fn runtime_with(script: Script) -> Runtime<MemoryStorage, ScriptedEngine> {
    Runtime::new(
        &module_bytes(),
        metadata(),
        MemoryStorage::new(),
        ScriptedEngine::new(script),
    )
    .unwrap()
}

#[test]
fn new_sizes_memory_from_module() {
    let rt = runtime_with(Script::Record);
    assert_eq!(rt.sandbox.mem.size(), 65536);
    assert!(rt.sandbox.input.is_none());
    assert!(rt.sandbox.ret.is_none());
}

#[test]
fn new_rejects_malformed_module() {
    let r = Runtime::new(
        &[1, 2, 3],
        metadata(),
        MemoryStorage::new(),
        ScriptedEngine::new(Script::Record),
    );
    assert_eq!(r.err(), Some(Error::ParseWasmModuleFailed));
}

#[test]
fn new_requires_memory_import() {
    let bare = vec![0x00, 0x61, 0x73, 0x6d, 0x01, 0x00, 0x00, 0x00];
    let r = Runtime::new(
        &bare,
        metadata(),
        MemoryStorage::new(),
        ScriptedEngine::new(Script::Record),
    );
    assert_eq!(r.err(), Some(Error::CalculateMemoryLimitFailed));
}

#[test]
fn new_rejects_impossible_limits() {
    let mut m = vec![0x00, 0x61, 0x73, 0x6d, 0x01, 0x00, 0x00, 0x00];
    // minimum above maximum
    let payload = vec![
        1, 3, b'e', b'n', b'v', 6, b'm', b'e', b'm', b'o', b'r', b'y', 2, 1, 4, 1,
    ];
    m.push(2);
    m.push(payload.len() as u8);
    m.extend_from_slice(&payload);
    let r = Runtime::new(
        &m,
        metadata(),
        MemoryStorage::new(),
        ScriptedEngine::new(Script::Record),
    );
    assert_eq!(r.err(), Some(Error::AllocMemoryFailed));
}

#[test]
fn new_rejects_bad_code_hash() {
    let mut meta = metadata();
    meta.source.hash = b"0x1234".to_vec();
    let r = Runtime::new(
        &module_bytes(),
        meta,
        MemoryStorage::new(),
        ScriptedEngine::new(Script::Record),
    );
    assert_eq!(r.err(), Some(Error::DecodeContractFailed));
}

#[test]
fn new_reports_bind_failure() {
    let mut engine = ScriptedEngine::new(Script::Record);
    engine.bind_ok = false;
    let r = Runtime::new(&module_bytes(), metadata(), MemoryStorage::new(), engine);
    assert_eq!(r.err(), Some(Error::InitModuleFailed));
}

#[test]
fn from_metadata_decodes_module_field() {
    let mut meta = metadata();
    // the module bytes, hex-encoded behind the 0x prefix
    let mut wasm = b"0x".to_vec();
    for b in module_bytes() {
        wasm.extend_from_slice(format!("{:02x}", b).as_bytes());
    }
    meta.source.wasm = wasm;
    let rt = Runtime::from_metadata_and_storage(
        meta,
        MemoryStorage::new(),
        ScriptedEngine::new(Script::Record),
    )
    .unwrap();
    assert_eq!(rt.sandbox.mem.size(), 65536);

    let mut bad = metadata();
    bad.source.wasm = b"junk".to_vec();
    let r = Runtime::from_metadata_and_storage(
        bad,
        MemoryStorage::new(),
        ScriptedEngine::new(Script::Record),
    );
    assert_eq!(r.err(), Some(Error::DecodeContractFailed));
}

#[test]
fn deploy_marshals_selector_and_argument() {
    let mut rt = runtime_with(Script::Record);
    let r = rt.deploy("default", &vec![vec![0x01]], None);
    assert_eq!(r, Ok(()));
    assert_eq!(rt.instance.invoked, vec!["deploy".to_string()]);
    assert_eq!(
        rt.instance.seen_input,
        Some(vec![0x9b, 0xae, 0x9d, 0x5e, 0x01])
    );
}

#[test]
fn deploy_checks_arity() {
    let mut rt = runtime_with(Script::Record);
    assert_eq!(
        rt.deploy("default", &vec![], None),
        Err(Error::WrongArgumentLength)
    );
    assert!(rt.instance.invoked.is_empty());
}

#[test]
fn deploy_trap_restores_state() {
    let mut rt = runtime_with(Script::Trap);
    let key = [5u8; 32];
    rt.sandbox.state.set(&key, vec![1]);
    let r = rt.deploy("default", &vec![vec![0x01]], None);
    assert_eq!(r, Err(Error::DeployContractFailed));
    assert_eq!(rt.sandbox.state.get(&key), Some(vec![1]));
}

#[test]
fn supplied_transaction_is_installed_wholesale() {
    let mut rt = runtime_with(Script::Record);
    let tx = ceres::sandbox::Transaction { caller: [0xaa; 32], value: 9, gas_limit: 123 };
    // even a failed resolution happens after the transaction is installed
    let r = rt.call("missing", &vec![], Some(tx));
    assert!(r.is_err());
    assert_eq!(rt.sandbox.tx.caller, [0xaa; 32]);
    assert_eq!(rt.sandbox.tx.value, 9);
    assert_eq!(rt.sandbox.gas_meter.gas_left, 123);
}

#[test]
fn absent_transaction_is_retained() {
    let mut rt = runtime_with(Script::Record);
    let before = rt.sandbox.gas_meter.gas_left;
    let r = rt.call("missing", &vec![], None);
    assert!(r.is_err());
    assert_eq!(rt.sandbox.tx.value, 0);
    assert_eq!(rt.sandbox.gas_meter.gas_left, before);
}

#[test]
fn unknown_message_is_resolution_error() {
    let mut rt = runtime_with(Script::Record);
    let key = [5u8; 32];
    rt.sandbox.state.set(&key, vec![9]);
    let r = rt.call("missing", &vec![], None);
    match r {
        Err(Error::GetMethodFailed { name }) => assert_eq!(name, "missing"),
        other => panic!("expected GetMethodFailed, got {:?}", other),
    }
    // the engine was never invoked and the state is untouched
    assert!(rt.instance.invoked.is_empty());
    assert_eq!(rt.sandbox.state.get(&key), Some(vec![9]));
}

#[test]
fn call_returns_explicit_output() {
    let mut rt = runtime_with(Script::Return { flags: 0, data: vec![0xde, 0xad] });
    let r = rt.call("get", &vec![], None);
    assert_eq!(r, Ok(vec![0xde, 0xad]));
    assert!(rt.sandbox.ret.is_none());
}

#[test]
fn call_without_output_returns_empty() {
    let mut rt = runtime_with(Script::Record);
    assert_eq!(rt.call("get", &vec![], None), Ok(vec![]));
}

#[test]
fn call_trap_restores_state_and_reports() {
    let mut rt = runtime_with(Script::Trap);
    let key = [6u8; 32];
    rt.sandbox.state.set(&key, vec![2]);
    let r = rt.call("get", &vec![], None);
    assert_eq!(r, Err(Error::CallContractFailed));
    assert_eq!(rt.sandbox.state.get(&key), Some(vec![2]));
}

#[test]
fn revert_discards_writes_but_keeps_output() {
    let written = [7u8; 32];
    let kept = [8u8; 32];
    let mut rt = runtime_with(Script::WriteThenReturn {
        key: written,
        value: vec![0xff],
        flags: 1,
        data: vec![0x0b],
    });
    rt.sandbox.state.set(&kept, vec![4]);
    let r = rt.call("get", &vec![], None);
    // the output reaches the caller, the write does not survive
    assert_eq!(r, Ok(vec![0x0b]));
    assert_eq!(rt.sandbox.state.get(&written), None);
    assert_eq!(rt.sandbox.state.get(&kept), Some(vec![4]));
}

#[test]
fn committed_write_survives_without_revert() {
    let written = [7u8; 32];
    let mut rt = runtime_with(Script::WriteThenReturn {
        key: written,
        value: vec![0xff],
        flags: 0,
        data: vec![],
    });
    let r = rt.call("get", &vec![], None);
    assert_eq!(r, Ok(vec![]));
    assert_eq!(rt.sandbox.state.get(&written), Some(vec![0xff]));
}

#[test]
fn flush_then_reload_restores_state() {
    let key = [1u8; 32];
    let mut rt = runtime_with(Script::Record);
    rt.sandbox.state.set(&key, vec![42]);
    rt.flush().unwrap();
    let storage = rt.storage;
    // a fresh runtime over the same storage and code hash sees the flushed state
    let rt2 = Runtime::new(
        &module_bytes(),
        metadata(),
        storage,
        ScriptedEngine::new(Script::Record),
    )
    .unwrap();
    assert_eq!(rt2.sandbox.state.get(&key), Some(vec![42]));
}

#[test]
fn unflushed_state_is_not_durable() {
    let key = [1u8; 32];
    let mut rt = runtime_with(Script::Record);
    rt.sandbox.state.set(&key, vec![42]);
    let storage = rt.storage;
    let rt2 = Runtime::new(
        &module_bytes(),
        metadata(),
        storage,
        ScriptedEngine::new(Script::Record),
    )
    .unwrap();
    assert_eq!(rt2.sandbox.state.get(&key), None);
}
