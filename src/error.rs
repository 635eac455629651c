use vstd::prelude::*;

verus! {

/// Driver status code: the operation completed.
pub const SUCCESS: i32 = 0;

/// Driver status code: a wait ended because its timeout passed.
pub const TIMEOUT: i32 = 2;

/// Driver status code: presentation still works but no longer matches the surface.
pub const SUBOPTIMAL: i32 = 1000001003;

/// Driver status code: a host memory allocation failed.
pub const ERROR_OUT_OF_HOST_MEMORY: i32 = -1;

/// Driver status code: a device memory allocation failed.
pub const ERROR_OUT_OF_DEVICE_MEMORY: i32 = -2;

/// Driver status code: mapping a memory object failed.
pub const ERROR_MEMORY_MAP_FAILED: i32 = -5;

/// Driver status code: the surface changed and the swapchain no longer fits it.
pub const ERROR_OUT_OF_DATE: i32 = -1000001004;

/// Errors reported by every fallible operation of the library.
#[derive(Clone, Debug, PartialEq, Eq)]
pub enum NxError {
    /// A native error that could not be classified.
    Unknown,
    /// An enumeration or a lookup produced nothing: no adapter, no matching
    /// queue family, no suitable memory type.
    NoValue,
    /// The adapter does not support the requested operation.
    HardwareError,
    /// Host memory is exhausted.
    OutOfHostMemory,
    /// Device memory is exhausted.
    OutOfDeviceMemory,
    /// A memory object could not be mapped, or the mapped region does not
    /// match the data that was to be copied through it.
    MemoryMapFailed,
    /// Any other driver status code, passed through unchanged.
    InternalError(i32),
    /// A shader blob could not be read.
    IoError(String),
}

pub type NxResult<T> = Result<T, NxError>;

/// The error that a failing driver status code stands for.
pub open spec fn error_of_code(code: i32) -> NxError {
    if code == ERROR_OUT_OF_HOST_MEMORY {
        NxError::OutOfHostMemory
    } else if code == ERROR_OUT_OF_DEVICE_MEMORY {
        NxError::OutOfDeviceMemory
    } else if code == ERROR_MEMORY_MAP_FAILED {
        NxError::MemoryMapFailed
    } else {
        NxError::InternalError(code)
    }
}

/// The outcome that a driver status code stands for.
pub open spec fn result_of_code(code: i32) -> NxResult<()> {
    if code == SUCCESS {
        Ok(())
    } else {
        Err(error_of_code(code))
    }
}

impl NxError {
    /// The error for a failing driver status code. Exhaustion and mapping
    /// failures get their own variants; every other code is passed through.
    pub fn from_code(code: i32) -> (e: NxError)
        ensures
            e == error_of_code(code),
    {
        if code == ERROR_OUT_OF_HOST_MEMORY {
            NxError::OutOfHostMemory
        } else if code == ERROR_OUT_OF_DEVICE_MEMORY {
            NxError::OutOfDeviceMemory
        } else if code == ERROR_MEMORY_MAP_FAILED {
            NxError::MemoryMapFailed
        } else {
            NxError::InternalError(code)
        }
    }

    /// `Ok` for a successful driver status code, the matching error otherwise.
    pub fn check(code: i32) -> (r: NxResult<()>)
        ensures
            r == result_of_code(code),
    {
        if code == SUCCESS {
            Ok(())
        } else {
            Err(NxError::from_code(code))
        }
    }

    /// Whether this error reports a wait that ran out of time.
    pub fn is_timeout(&self) -> (b: bool)
        ensures
            b == (*self == NxError::InternalError(TIMEOUT)),
    {
        match self {
            NxError::InternalError(code) => *code == TIMEOUT,
            _ => false,
        }
    }
}

} // verus!
