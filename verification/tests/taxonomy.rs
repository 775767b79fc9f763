//! Return-code normalization, argument marshalling, hex decoding, and the
//! module-header scanner.

use ceres::result::{Error, ReturnCode};
use ceres::util::{parse_args, parse_code_hash, parse_hex_field};
use ceres::wasm::{scan_imports, MemoryImportScan};

#[test]
fn return_code_known_values() {
    assert_eq!(ReturnCode::from(0), ReturnCode::Success);
    assert_eq!(ReturnCode::from(1), ReturnCode::CalleeTrapped);
    assert_eq!(ReturnCode::from(2), ReturnCode::CalleeReverted);
    assert_eq!(ReturnCode::from(3), ReturnCode::KeyNotFound);
    assert_eq!(ReturnCode::from(4), ReturnCode::BelowSubsistenceThreshold);
    assert_eq!(ReturnCode::from(5), ReturnCode::TransferFailed);
    assert_eq!(ReturnCode::from(6), ReturnCode::NewContractNotFunded);
    assert_eq!(ReturnCode::from(7), ReturnCode::CodeNotFound);
    assert_eq!(ReturnCode::from(8), ReturnCode::NotCallable);
    assert_eq!(ReturnCode::from(9), ReturnCode::LoggingDisabled);
}

#[test]
fn return_code_unknown_normalizes() {
    assert_eq!(ReturnCode::from(10), ReturnCode::UnExpectedReturnCode);
    assert_eq!(ReturnCode::from(11), ReturnCode::UnExpectedReturnCode);
    assert_eq!(ReturnCode::from(-1), ReturnCode::UnExpectedReturnCode);
    assert_eq!(ReturnCode::from(i32::MIN), ReturnCode::UnExpectedReturnCode);
    assert_eq!(ReturnCode::from(i32::MAX), ReturnCode::UnExpectedReturnCode);
}

#[test]
fn parse_args_exact_payload() {
    let selector = [0x9b, 0xae, 0x9d, 0x5e];
    let args = vec![vec![0x01], vec![0x02, 0x03]];
    let tys = vec!["bool".to_string(), "u16".to_string()];
    let payload = parse_args(&selector, &args, &tys).unwrap();
    assert_eq!(payload, vec![0x9b, 0xae, 0x9d, 0x5e, 0x01, 0x02, 0x03]);
}

#[test]
fn parse_args_empty_list() {
    let selector = [1, 2, 3, 4];
    let args: Vec<Vec<u8>> = vec![];
    let tys: Vec<String> = vec![];
    assert_eq!(parse_args(&selector, &args, &tys).unwrap(), vec![1, 2, 3, 4]);
}

#[test]
fn parse_args_wrong_arity() {
    let selector = [0, 0, 0, 0];
    let args = vec![vec![0x01]];
    let tys: Vec<String> = vec![];
    assert_eq!(parse_args(&selector, &args, &tys), Err(Error::WrongArgumentLength));
    let two = vec!["a".to_string(), "b".to_string()];
    assert_eq!(parse_args(&selector, &args, &two), Err(Error::WrongArgumentLength));
}

#[test]
fn code_hash_decodes() {
    let mut s = b"0x".to_vec();
    s.extend_from_slice("01".repeat(32).as_bytes());
    let h = parse_code_hash(&s).unwrap();
    assert_eq!(h, [0x01u8; 32]);
}

#[test]
fn code_hash_rejects_bad_inputs() {
    // wrong length
    assert_eq!(parse_code_hash(b"0x0102"), Err(Error::DecodeContractFailed));
    // missing prefix
    let mut no_prefix = Vec::new();
    no_prefix.extend_from_slice("02".repeat(33).as_bytes());
    assert_eq!(parse_code_hash(&no_prefix), Err(Error::DecodeContractFailed));
    // non-hex character
    let mut bad = b"0x".to_vec();
    bad.extend_from_slice("zz".repeat(32).as_bytes());
    assert_eq!(parse_code_hash(&bad), Err(Error::DecodeContractFailed));
}

#[test]
fn hex_field_decodes_exactly() {
    // Mixed case, and a value the decoder must actually transform.
    assert_eq!(parse_hex_field(b"0x0aFf"), Ok(vec![0x0a, 0xff]));
    assert_eq!(parse_hex_field(b"0x"), Ok(vec![]));
    // Odd length is refused.
    assert_eq!(parse_hex_field(b"0xabc"), Err(Error::DecodeContractFailed));
    assert_eq!(parse_hex_field(b"ab"), Err(Error::DecodeContractFailed));
}

fn module_with_memory(min: u8, max: u8) -> Vec<u8> {
    let mut m = vec![0x00, 0x61, 0x73, 0x6d, 0x01, 0x00, 0x00, 0x00];
    let payload = vec![
        1, // one import
        3, b'e', b'n', b'v', // module name
        6, b'm', b'e', b'm', b'o', b'r', b'y', // field name
        2, // a memory import
        1, min, max, // bounded limits
    ];
    m.push(2); // import section
    m.push(payload.len() as u8);
    m.extend_from_slice(&payload);
    m
}

#[test]
fn scanner_reads_declared_limits() {
    let m = module_with_memory(2, 16);
    assert_eq!(scan_imports(&m), MemoryImportScan::Limits(2, 16));
}

#[test]
fn scanner_rejects_bad_magic() {
    let mut m = module_with_memory(2, 16);
    m[0] = 0x01;
    assert_eq!(scan_imports(&m), MemoryImportScan::Malformed);
    assert_eq!(scan_imports(&[0u8; 4]), MemoryImportScan::Malformed);
}

#[test]
fn scanner_without_memory_import() {
    // Magic and version only: no sections at all.
    let m = vec![0x00, 0x61, 0x73, 0x6d, 0x01, 0x00, 0x00, 0x00];
    assert_eq!(scan_imports(&m), MemoryImportScan::NoLimits);
    // A memory import without a maximum is unusable.
    let mut unbounded = vec![0x00, 0x61, 0x73, 0x6d, 0x01, 0x00, 0x00, 0x00];
    let payload = vec![
        1, 3, b'e', b'n', b'v', 6, b'm', b'e', b'm', b'o', b'r', b'y', 2, 0, 2,
    ];
    unbounded.push(2);
    unbounded.push(payload.len() as u8);
    unbounded.extend_from_slice(&payload);
    assert_eq!(scan_imports(&unbounded), MemoryImportScan::NoLimits);
}

#[test]
fn scanner_skips_other_imports() {
    let mut m = vec![0x00, 0x61, 0x73, 0x6d, 0x01, 0x00, 0x00, 0x00];
    let payload = vec![
        2, // two imports
        3, b'e', b'n', b'v', 1, b'f', 0, 0, // a function import first
        3, b'e', b'n', b'v', 3, b'm', b'e', b'm', 2, 1, 1, 4, // then the memory
    ];
    m.push(2);
    m.push(payload.len() as u8);
    m.extend_from_slice(&payload);
    assert_eq!(scan_imports(&m), MemoryImportScan::Limits(1, 4));
}
