//! Outcome taxonomy: the contract-facing return codes, the host-facing
//! errors, and the typed result of one execution.

use vstd::prelude::*;

verus! {

/// The contract-facing status vocabulary.  A host function reports its
/// outcome to the running contract as one of these codes; the number each
/// code stands for is fixed by [`code_of_number`].
#[derive(Clone, Copy, Debug, PartialEq, Eq, Structural)]
pub enum ReturnCode {
    /// API call successful.
    Success,
    /// The called function trapped and has its state changes reverted.
    CalleeTrapped,
    /// The called function ran to completion but decided to revert its state.
    CalleeReverted,
    /// The passed key does not exist in storage.
    KeyNotFound,
    /// Transfer would have brought the sender below the subsistence threshold.
    BelowSubsistenceThreshold,
    /// Transfer failed for another reason.
    TransferFailed,
    /// The newly created contract is below the subsistence threshold.
    NewContractNotFunded,
    /// No code could be found at the supplied code hash.
    CodeNotFound,
    /// The called account is no contract at all, or a tombstone.
    NotCallable,
    /// Debug message recording was disabled.
    LoggingDisabled,
    /// A host returned a number outside the closed vocabulary.
    UnExpectedReturnCode,
}

/// The code that a host-returned number denotes: `0` through `9` name the
/// nine meaningful codes in order, and every other number normalizes to
/// [`ReturnCode::UnExpectedReturnCode`].
pub open spec fn code_of_number(n: i32) -> ReturnCode {
    if n == 0 {
        ReturnCode::Success
    } else if n == 1 {
        ReturnCode::CalleeTrapped
    } else if n == 2 {
        ReturnCode::CalleeReverted
    } else if n == 3 {
        ReturnCode::KeyNotFound
    } else if n == 4 {
        ReturnCode::BelowSubsistenceThreshold
    } else if n == 5 {
        ReturnCode::TransferFailed
    } else if n == 6 {
        ReturnCode::NewContractNotFunded
    } else if n == 7 {
        ReturnCode::CodeNotFound
    } else if n == 8 {
        ReturnCode::NotCallable
    } else if n == 9 {
        ReturnCode::LoggingDisabled
    } else {
        ReturnCode::UnExpectedReturnCode
    }
}

impl From<i32> for ReturnCode {
    /// Normalizes a host-returned number; an unrecognized number maps to
    /// `UnExpectedReturnCode` rather than failing.
    fn from(n: i32) -> (r: ReturnCode) {
        match n {
            0 => ReturnCode::Success,
            1 => ReturnCode::CalleeTrapped,
            2 => ReturnCode::CalleeReverted,
            3 => ReturnCode::KeyNotFound,
            4 => ReturnCode::BelowSubsistenceThreshold,
            5 => ReturnCode::TransferFailed,
            6 => ReturnCode::NewContractNotFunded,
            7 => ReturnCode::CodeNotFound,
            8 => ReturnCode::NotCallable,
            9 => ReturnCode::LoggingDisabled,
            _ => ReturnCode::UnExpectedReturnCode,
        }
    }
}

impl vstd::std_specs::convert::FromSpecImpl<i32> for ReturnCode {
    open spec fn obeys_from_spec() -> bool {
        true
    }

    open spec fn from_spec(n: i32) -> ReturnCode {
        code_of_number(n)
    }
}

/// Every number outside `0..=9` normalizes to `UnExpectedReturnCode`.
pub proof fn lemma_unknown_code_normalizes(n: i32)
    requires
        n < 0 || n > 9,
    ensures
        code_of_number(n) == ReturnCode::UnExpectedReturnCode,
{
}

/// Communicates whether a callee ended its execution intentionally reverted.
/// The low bit of the carried word is the revert flag.
#[derive(Clone, Copy, Debug, PartialEq, Eq, Structural)]
pub struct ReturnFlags {
    pub bits: u32,
}

impl ReturnFlags {
    /// Whether the revert bit is set.
    pub open spec fn is_revert(self) -> bool {
        self.bits & 1 == 1
    }

    /// No flag set.
    pub fn empty() -> (r: ReturnFlags)
        ensures
            r.bits == 0,
            !r.is_revert(),
    {
        proof {
            assert(0u32 & 1 == 0) by (bit_vector);
        }
        ReturnFlags { bits: 0 }
    }

    /// Builds the flags a contract supplied as a plain word.
    pub fn from_bits(bits: u32) -> (r: ReturnFlags)
        ensures
            r.bits == bits,
    {
        ReturnFlags { bits }
    }

    /// Whether the revert bit is set.
    pub fn reverted(&self) -> (r: bool)
        ensures
            r == self.is_revert(),
    {
        self.bits & 1 == 1
    }
}

/// The typed result of one execution: the flags say whether the callee
/// intentionally reverted, and `data` is the output buffer it supplied.
#[derive(Debug, PartialEq, Eq)]
pub struct ExecReturnValue {
    pub flags: ReturnFlags,
    pub data: Vec<u8>,
}

/// The host- and runtime-facing failure taxonomy.  Setup failures are fatal
/// to constructing a runtime; resolution failures are fatal to one `deploy`
/// or `call` attempt; the rest classify how an invocation ended.
#[derive(Debug, PartialEq, Eq)]
pub enum Error {
    /// The initial memory allocation could not be made.
    InitMemoryFailed,
    /// A read or write lay outside the memory's current size.
    OutOfBounds,
    /// The module could not be linked against the host table.
    InitModuleFailed,
    /// A host reported the given code for a completed execution.
    ExecuteFailed(ReturnCode),
    /// The gas meter was exhausted; fatal to the current invocation.
    OutOfGas,
    /// The contract ended execution early through the return-data host call;
    /// the sandbox's `ret` field carries the recorded output.
    ReturnData,
    /// An event carried more topics than the host permits.
    TooManyTopics,
    /// An event carried the same topic twice.
    DuplicateTopics,
    /// An event topic exceeded the host's size bound.
    TopicValueTooLarge,
    /// The number of supplied arguments differs from the declared arity.
    WrongArgumentLength,
    /// The storage backing refused to persist the state.
    SetStorageFailed,
    /// The contract document or one of its hex fields could not be decoded.
    DecodeContractFailed,
    /// The module bytes are not a well-formed module header.
    ParseWasmModuleFailed,
    /// The module declares no usable memory import bounds.
    CalculateMemoryLimitFailed,
    /// The memory demanded by the module could not be allocated.
    AllocMemoryFailed,
    /// No constructor or message of the requested name exists.
    GetMethodFailed { name: String },
    /// The engine reported a failure while running the deploy export.
    DeployContractFailed,
    /// The engine reported a failure while running the call export.
    CallContractFailed,
}

} // verus!
