//! Contract execution error codes.
use vstd::prelude::*;

verus! {

/// Contract execution error
#[derive(Clone, Copy, PartialEq, Eq, Debug, Structural)]
pub enum Error {
    /// No error
    Success,
    /// Invalid argument
    InvalidArgument,
    /// Out of memory
    OutOfMemory,
    /// Out of gas
    OutOfGas,
    /// Storage error
    StorageError,
    /// Authorization failed
    Unauthorized,
    /// Account not found
    AccountNotFound,
    /// Insufficient balance
    InsufficientBalance,
    /// Insufficient credits
    InsufficientCredits,
    /// Contract not found
    ContractNotFound,
    /// Function not found
    FunctionNotFound,
    /// Invalid state
    InvalidState,
    /// Overflow
    Overflow,
    /// Underflow
    Underflow,
    /// Division by zero
    DivisionByZero,
    /// Invalid signature
    InvalidSignature,
    /// Revert with reason
    Revert,
    /// Panic
    Panic,
    /// Call depth exceeded
    CallDepthExceeded,
    /// Read only violation
    ReadOnlyViolation,
    /// Reentrancy detected
    ReentrancyDetected,
    /// Function not payable
    NotPayable,
    /// Zero address not allowed
    ZeroAddress,
    /// Contract not initialized
    ContractNotInitialized,
    /// Invalid input data
    InvalidInput,
    /// Unknown function selector
    UnknownFunction,
    /// Encoding error
    EncodingError,
    /// Decoding error
    DecodingError,
    /// Buffer too small
    BufferTooSmall,
    /// Unknown error
    Unknown,
}

/// Wire code of an error.
pub open spec fn error_code(e: Error) -> u32 {
    match e {
        Error::Success => 0,
        Error::InvalidArgument => 1,
        Error::OutOfMemory => 2,
        Error::OutOfGas => 3,
        Error::StorageError => 4,
        Error::Unauthorized => 5,
        Error::AccountNotFound => 6,
        Error::InsufficientBalance => 7,
        Error::InsufficientCredits => 8,
        Error::ContractNotFound => 9,
        Error::FunctionNotFound => 10,
        Error::InvalidState => 11,
        Error::Overflow => 12,
        Error::Underflow => 13,
        Error::DivisionByZero => 14,
        Error::InvalidSignature => 15,
        Error::Revert => 16,
        Error::Panic => 17,
        Error::CallDepthExceeded => 18,
        Error::ReadOnlyViolation => 19,
        Error::ReentrancyDetected => 20,
        Error::NotPayable => 21,
        Error::ZeroAddress => 22,
        Error::ContractNotInitialized => 23,
        Error::InvalidInput => 24,
        Error::UnknownFunction => 25,
        Error::EncodingError => 26,
        Error::DecodingError => 27,
        Error::BufferTooSmall => 28,
        Error::Unknown => 255,
    }
}

/// Error for a wire code; codes without an error of their own give `Unknown`.
pub open spec fn error_of_code(code: u32) -> Error {
    if code == 0 { Error::Success } else if code == 1 { Error::InvalidArgument } else if code == 2 { Error::OutOfMemory } else if code == 3 { Error::OutOfGas } else if code == 4 { Error::StorageError } else if code == 5 { Error::Unauthorized } else if code == 6 { Error::AccountNotFound } else if code == 7 { Error::InsufficientBalance } else if code == 8 { Error::InsufficientCredits } else if code == 9 { Error::ContractNotFound } else if code == 10 { Error::FunctionNotFound } else if code == 11 { Error::InvalidState } else if code == 12 { Error::Overflow } else if code == 13 { Error::Underflow } else if code == 14 { Error::DivisionByZero } else if code == 15 { Error::InvalidSignature } else if code == 16 { Error::Revert } else if code == 17 { Error::Panic } else if code == 18 { Error::CallDepthExceeded } else if code == 19 { Error::ReadOnlyViolation } else if code == 20 { Error::ReentrancyDetected } else if code == 21 { Error::NotPayable } else if code == 22 { Error::ZeroAddress } else if code == 23 { Error::ContractNotInitialized } else if code == 24 { Error::InvalidInput } else if code == 25 { Error::UnknownFunction } else if code == 26 { Error::EncodingError } else if code == 27 { Error::DecodingError } else if code == 28 { Error::BufferTooSmall } else { Error::Unknown }
}

/// The wire codes of the errors, as the runtime numbers them: success is
/// 0, the errors count up from 1 to 28, and `Unknown` is 255; each code in
/// that table reads back as its own error.
pub proof fn lemma_error_code_table()
    ensures
        error_code(Error::Success) == 0,
        error_of_code(0) == Error::Success,
        error_code(Error::InvalidArgument) == 1,
        error_of_code(1) == Error::InvalidArgument,
        error_code(Error::OutOfMemory) == 2,
        error_of_code(2) == Error::OutOfMemory,
        error_code(Error::OutOfGas) == 3,
        error_of_code(3) == Error::OutOfGas,
        error_code(Error::StorageError) == 4,
        error_of_code(4) == Error::StorageError,
        error_code(Error::Unauthorized) == 5,
        error_of_code(5) == Error::Unauthorized,
        error_code(Error::AccountNotFound) == 6,
        error_of_code(6) == Error::AccountNotFound,
        error_code(Error::InsufficientBalance) == 7,
        error_of_code(7) == Error::InsufficientBalance,
        error_code(Error::InsufficientCredits) == 8,
        error_of_code(8) == Error::InsufficientCredits,
        error_code(Error::ContractNotFound) == 9,
        error_of_code(9) == Error::ContractNotFound,
        error_code(Error::FunctionNotFound) == 10,
        error_of_code(10) == Error::FunctionNotFound,
        error_code(Error::InvalidState) == 11,
        error_of_code(11) == Error::InvalidState,
        error_code(Error::Overflow) == 12,
        error_of_code(12) == Error::Overflow,
        error_code(Error::Underflow) == 13,
        error_of_code(13) == Error::Underflow,
        error_code(Error::DivisionByZero) == 14,
        error_of_code(14) == Error::DivisionByZero,
        error_code(Error::InvalidSignature) == 15,
        error_of_code(15) == Error::InvalidSignature,
        error_code(Error::Revert) == 16,
        error_of_code(16) == Error::Revert,
        error_code(Error::Panic) == 17,
        error_of_code(17) == Error::Panic,
        error_code(Error::CallDepthExceeded) == 18,
        error_of_code(18) == Error::CallDepthExceeded,
        error_code(Error::ReadOnlyViolation) == 19,
        error_of_code(19) == Error::ReadOnlyViolation,
        error_code(Error::ReentrancyDetected) == 20,
        error_of_code(20) == Error::ReentrancyDetected,
        error_code(Error::NotPayable) == 21,
        error_of_code(21) == Error::NotPayable,
        error_code(Error::ZeroAddress) == 22,
        error_of_code(22) == Error::ZeroAddress,
        error_code(Error::ContractNotInitialized) == 23,
        error_of_code(23) == Error::ContractNotInitialized,
        error_code(Error::InvalidInput) == 24,
        error_of_code(24) == Error::InvalidInput,
        error_code(Error::UnknownFunction) == 25,
        error_of_code(25) == Error::UnknownFunction,
        error_code(Error::EncodingError) == 26,
        error_of_code(26) == Error::EncodingError,
        error_code(Error::DecodingError) == 27,
        error_of_code(27) == Error::DecodingError,
        error_code(Error::BufferTooSmall) == 28,
        error_of_code(28) == Error::BufferTooSmall,
        error_code(Error::Unknown) == 255,
{
}

/// Human-readable text of an error.
pub open spec fn error_text(e: Error) -> Seq<char> {
    match e {
        Error::Success => "success"@,
        Error::InvalidArgument => "invalid argument"@,
        Error::OutOfMemory => "out of memory"@,
        Error::OutOfGas => "out of gas"@,
        Error::StorageError => "storage error"@,
        Error::Unauthorized => "unauthorized"@,
        Error::AccountNotFound => "account not found"@,
        Error::InsufficientBalance => "insufficient balance"@,
        Error::InsufficientCredits => "insufficient credits"@,
        Error::ContractNotFound => "contract not found"@,
        Error::FunctionNotFound => "function not found"@,
        Error::InvalidState => "invalid state"@,
        Error::Overflow => "overflow"@,
        Error::Underflow => "underflow"@,
        Error::DivisionByZero => "division by zero"@,
        Error::InvalidSignature => "invalid signature"@,
        Error::Revert => "revert"@,
        Error::Panic => "panic"@,
        Error::CallDepthExceeded => "call depth exceeded"@,
        Error::ReadOnlyViolation => "read only violation"@,
        Error::ReentrancyDetected => "reentrancy detected"@,
        Error::NotPayable => "function not payable"@,
        Error::ZeroAddress => "zero address not allowed"@,
        Error::ContractNotInitialized => "contract not initialized"@,
        Error::InvalidInput => "invalid input data"@,
        Error::UnknownFunction => "unknown function selector"@,
        Error::EncodingError => "encoding error"@,
        Error::DecodingError => "decoding error"@,
        Error::BufferTooSmall => "buffer too small"@,
        Error::Unknown => "unknown error"@,
    }
}

impl Error {
    /// Create from error code
    pub fn from_code(code: u32) -> (r: Self)
        ensures
            r == error_of_code(code),
    {
        match code {
            0 => Error::Success,
            1 => Error::InvalidArgument,
            2 => Error::OutOfMemory,
            3 => Error::OutOfGas,
            4 => Error::StorageError,
            5 => Error::Unauthorized,
            6 => Error::AccountNotFound,
            7 => Error::InsufficientBalance,
            8 => Error::InsufficientCredits,
            9 => Error::ContractNotFound,
            10 => Error::FunctionNotFound,
            11 => Error::InvalidState,
            12 => Error::Overflow,
            13 => Error::Underflow,
            14 => Error::DivisionByZero,
            15 => Error::InvalidSignature,
            16 => Error::Revert,
            17 => Error::Panic,
            18 => Error::CallDepthExceeded,
            19 => Error::ReadOnlyViolation,
            20 => Error::ReentrancyDetected,
            21 => Error::NotPayable,
            22 => Error::ZeroAddress,
            23 => Error::ContractNotInitialized,
            24 => Error::InvalidInput,
            25 => Error::UnknownFunction,
            26 => Error::EncodingError,
            27 => Error::DecodingError,
            28 => Error::BufferTooSmall,
            _ => Error::Unknown,
        }
    }

    /// Get error code
    pub fn code(&self) -> (r: u32)
        ensures
            r == error_code(*self),
    {
        match self {
            Error::Success => 0,
            Error::InvalidArgument => 1,
            Error::OutOfMemory => 2,
            Error::OutOfGas => 3,
            Error::StorageError => 4,
            Error::Unauthorized => 5,
            Error::AccountNotFound => 6,
            Error::InsufficientBalance => 7,
            Error::InsufficientCredits => 8,
            Error::ContractNotFound => 9,
            Error::FunctionNotFound => 10,
            Error::InvalidState => 11,
            Error::Overflow => 12,
            Error::Underflow => 13,
            Error::DivisionByZero => 14,
            Error::InvalidSignature => 15,
            Error::Revert => 16,
            Error::Panic => 17,
            Error::CallDepthExceeded => 18,
            Error::ReadOnlyViolation => 19,
            Error::ReentrancyDetected => 20,
            Error::NotPayable => 21,
            Error::ZeroAddress => 22,
            Error::ContractNotInitialized => 23,
            Error::InvalidInput => 24,
            Error::UnknownFunction => 25,
            Error::EncodingError => 26,
            Error::DecodingError => 27,
            Error::BufferTooSmall => 28,
            Error::Unknown => 255,
        }
    }

    /// Check if success
    pub fn is_success(&self) -> (r: bool)
        ensures
            r == (*self == Error::Success),
    {
        match self {
            Error::Success => true,
            _ => false,
        }
    }

    /// Check if error
    pub fn is_error(&self) -> (r: bool)
        ensures
            r == (*self != Error::Success),
    {
        !self.is_success()
    }

    /// Human-readable text of the error.
    pub fn message(&self) -> (r: &'static str)
        ensures
            r@ == error_text(*self),
    {
        match self {
            Error::Success => {
                proof { reveal_strlit("success"); }
                "success"
            },
            Error::InvalidArgument => {
                proof { reveal_strlit("invalid argument"); }
                "invalid argument"
            },
            Error::OutOfMemory => {
                proof { reveal_strlit("out of memory"); }
                "out of memory"
            },
            Error::OutOfGas => {
                proof { reveal_strlit("out of gas"); }
                "out of gas"
            },
            Error::StorageError => {
                proof { reveal_strlit("storage error"); }
                "storage error"
            },
            Error::Unauthorized => {
                proof { reveal_strlit("unauthorized"); }
                "unauthorized"
            },
            Error::AccountNotFound => {
                proof { reveal_strlit("account not found"); }
                "account not found"
            },
            Error::InsufficientBalance => {
                proof { reveal_strlit("insufficient balance"); }
                "insufficient balance"
            },
            Error::InsufficientCredits => {
                proof { reveal_strlit("insufficient credits"); }
                "insufficient credits"
            },
            Error::ContractNotFound => {
                proof { reveal_strlit("contract not found"); }
                "contract not found"
            },
            Error::FunctionNotFound => {
                proof { reveal_strlit("function not found"); }
                "function not found"
            },
            Error::InvalidState => {
                proof { reveal_strlit("invalid state"); }
                "invalid state"
            },
            Error::Overflow => {
                proof { reveal_strlit("overflow"); }
                "overflow"
            },
            Error::Underflow => {
                proof { reveal_strlit("underflow"); }
                "underflow"
            },
            Error::DivisionByZero => {
                proof { reveal_strlit("division by zero"); }
                "division by zero"
            },
            Error::InvalidSignature => {
                proof { reveal_strlit("invalid signature"); }
                "invalid signature"
            },
            Error::Revert => {
                proof { reveal_strlit("revert"); }
                "revert"
            },
            Error::Panic => {
                proof { reveal_strlit("panic"); }
                "panic"
            },
            Error::CallDepthExceeded => {
                proof { reveal_strlit("call depth exceeded"); }
                "call depth exceeded"
            },
            Error::ReadOnlyViolation => {
                proof { reveal_strlit("read only violation"); }
                "read only violation"
            },
            Error::ReentrancyDetected => {
                proof { reveal_strlit("reentrancy detected"); }
                "reentrancy detected"
            },
            Error::NotPayable => {
                proof { reveal_strlit("function not payable"); }
                "function not payable"
            },
            Error::ZeroAddress => {
                proof { reveal_strlit("zero address not allowed"); }
                "zero address not allowed"
            },
            Error::ContractNotInitialized => {
                proof { reveal_strlit("contract not initialized"); }
                "contract not initialized"
            },
            Error::InvalidInput => {
                proof { reveal_strlit("invalid input data"); }
                "invalid input data"
            },
            Error::UnknownFunction => {
                proof { reveal_strlit("unknown function selector"); }
                "unknown function selector"
            },
            Error::EncodingError => {
                proof { reveal_strlit("encoding error"); }
                "encoding error"
            },
            Error::DecodingError => {
                proof { reveal_strlit("decoding error"); }
                "decoding error"
            },
            Error::BufferTooSmall => {
                proof { reveal_strlit("buffer too small"); }
                "buffer too small"
            },
            Error::Unknown => {
                proof { reveal_strlit("unknown error"); }
                "unknown error"
            },
        }
    }
}

/// Every error survives the trip through its wire code.
pub proof fn lemma_error_code_roundtrip(e: Error)
    ensures
        error_of_code(error_code(e)) == e,
{
}

/// A code that names an error is given back by that error.
pub proof fn lemma_code_error_roundtrip(code: u32)
    ensures
        error_of_code(code) != Error::Unknown ==> error_code(error_of_code(code)) == code,
        error_of_code(code) == Error::Unknown ==> code == 255 || code > 28,
{
}

} // verus!
