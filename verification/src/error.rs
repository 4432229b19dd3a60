//! The error taxonomy, and the reading of native error codes into it.

use vstd::prelude::*;

verus! {

/// The native code that reports "no error", on both error channels.
pub const AL_NO_ERROR: i32 = 0;

pub const AL_INVALID_NAME: i32 = 0xA001;

pub const AL_INVALID_ENUM: i32 = 0xA002;

pub const AL_INVALID_VALUE: i32 = 0xA003;

pub const AL_INVALID_OPERATION: i32 = 0xA004;

pub const AL_OUT_OF_MEMORY: i32 = 0xA005;

pub const ALC_NO_ERROR: i32 = 0;

pub const ALC_INVALID_DEVICE: i32 = 0xA001;

pub const ALC_INVALID_CONTEXT: i32 = 0xA002;

pub const ALC_INVALID_ENUM: i32 = 0xA003;

pub const ALC_INVALID_VALUE: i32 = 0xA004;

pub const ALC_OUT_OF_MEMORY: i32 = 0xA005;

/// An OpenAL error.
#[derive(Debug, Clone, PartialEq, Eq)]
pub enum AllenError {
    InvalidName,
    InvalidDevice,
    InvalidContext,
    InvalidEnum,
    InvalidValue,
    InvalidOperation,
    OutOfMemory,
    Unknown(i32),
    MissingExtension(String),
}

pub type AllenResult<T> = Result<T, AllenError>;

/// What a non-clear code of the context-level error channel means.
pub open spec fn al_error_of(code: i32) -> AllenError {
    if code == AL_INVALID_NAME {
        AllenError::InvalidName
    } else if code == AL_INVALID_ENUM {
        AllenError::InvalidEnum
    } else if code == AL_INVALID_VALUE {
        AllenError::InvalidValue
    } else if code == AL_INVALID_OPERATION {
        AllenError::InvalidOperation
    } else if code == AL_OUT_OF_MEMORY {
        AllenError::OutOfMemory
    } else {
        AllenError::Unknown(code)
    }
}

/// What a non-clear code of the device-level error channel means.
pub open spec fn alc_error_of(code: i32) -> AllenError {
    if code == ALC_INVALID_DEVICE {
        AllenError::InvalidDevice
    } else if code == ALC_INVALID_CONTEXT {
        AllenError::InvalidContext
    } else if code == ALC_INVALID_ENUM {
        AllenError::InvalidEnum
    } else if code == ALC_INVALID_VALUE {
        AllenError::InvalidValue
    } else if code == ALC_OUT_OF_MEMORY {
        AllenError::OutOfMemory
    } else {
        AllenError::Unknown(code)
    }
}

/// Checks the code that the context-level error query returned.
pub fn check_al_error(code: i32) -> (result: AllenResult<()>)
    ensures
        code == AL_NO_ERROR ==> result == Ok::<(), AllenError>(()),
        code != AL_NO_ERROR ==> result == Err::<(), AllenError>(al_error_of(code)),
{
    if code == AL_NO_ERROR {
        Ok(())
    } else {
        Err(
            match code {
                AL_INVALID_NAME => AllenError::InvalidName,
                AL_INVALID_ENUM => AllenError::InvalidEnum,
                AL_INVALID_VALUE => AllenError::InvalidValue,
                AL_INVALID_OPERATION => AllenError::InvalidOperation,
                AL_OUT_OF_MEMORY => AllenError::OutOfMemory,
                e => AllenError::Unknown(e),
            },
        )
    }
}

/// Checks the code that the device-level error query returned.
pub fn check_alc_error(code: i32) -> (result: AllenResult<()>)
    ensures
        code == ALC_NO_ERROR ==> result == Ok::<(), AllenError>(()),
        code != ALC_NO_ERROR ==> result == Err::<(), AllenError>(alc_error_of(code)),
{
    if code == ALC_NO_ERROR {
        Ok(())
    } else {
        Err(
            match code {
                ALC_INVALID_DEVICE => AllenError::InvalidDevice,
                ALC_INVALID_CONTEXT => AllenError::InvalidContext,
                ALC_INVALID_ENUM => AllenError::InvalidEnum,
                ALC_INVALID_VALUE => AllenError::InvalidValue,
                ALC_OUT_OF_MEMORY => AllenError::OutOfMemory,
                e => AllenError::Unknown(e),
            },
        )
    }
}

} // verus!
