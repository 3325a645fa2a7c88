//! The typed error domain and the translation of native error codes into it.

use vstd::prelude::*;

verus! {

/// Native code of an error-state register that holds no error.
pub const ALC_NO_ERROR: i32 = 0;

/// Native code: the device handle is not valid.
pub const ALC_INVALID_DEVICE: i32 = 0xA001;

/// Native code: the context is not valid.
pub const ALC_INVALID_CONTEXT: i32 = 0xA002;

/// Native code: an enumeration parameter is not valid.
pub const ALC_INVALID_ENUM: i32 = 0xA003;

/// Native code: a value parameter is not valid.
pub const ALC_INVALID_VALUE: i32 = 0xA004;

/// Native code: the native API ran out of memory.
pub const ALC_OUT_OF_MEMORY: i32 = 0xA005;

/// An error of the audio-rendering domain. This library carries such a value
/// inside [`AlcError::Al`] and never produces one.
#[derive(Copy, Clone, PartialEq, Eq, Hash, Debug, Structural)]
pub enum AlError {
    InvalidName,
    InvalidEnum,
    InvalidValue,
    InvalidOperation,
    OutOfMemory,
    UnknownError,
}

/// An error of the device domain.
#[derive(Copy, Clone, PartialEq, Eq, Hash, Debug, Structural)]
pub enum AlcError {
    InvalidDevice,
    InvalidContext,
    InvalidEnum,
    InvalidValue,
    OutOfMemory,
    UnsupportedVersion,
    ExtensionNotPresent,
    Al(AlError),
    UnknownError,
}

pub type AlcResult<T> = Result<T, AlcError>;

/// The error that a native error code stands for. A code that the native API
/// does not define, the code of "no error" among them, is `UnknownError`.
pub open spec fn error_of_code(code: i32) -> AlcError {
    if code == ALC_INVALID_DEVICE {
        AlcError::InvalidDevice
    } else if code == ALC_INVALID_CONTEXT {
        AlcError::InvalidContext
    } else if code == ALC_INVALID_ENUM {
        AlcError::InvalidEnum
    } else if code == ALC_INVALID_VALUE {
        AlcError::InvalidValue
    } else if code == ALC_OUT_OF_MEMORY {
        AlcError::OutOfMemory
    } else {
        AlcError::UnknownError
    }
}

impl From<i32> for AlcError {
    fn from(code: i32) -> (e: AlcError) {
        match code {
            ALC_INVALID_DEVICE => AlcError::InvalidDevice,
            ALC_INVALID_CONTEXT => AlcError::InvalidContext,
            ALC_INVALID_ENUM => AlcError::InvalidEnum,
            ALC_INVALID_VALUE => AlcError::InvalidValue,
            ALC_OUT_OF_MEMORY => AlcError::OutOfMemory,
            _ => AlcError::UnknownError,
        }
    }
}

impl vstd::std_specs::convert::FromSpecImpl<i32> for AlcError {
    open spec fn obeys_from_spec() -> bool {
        true
    }

    open spec fn from_spec(code: i32) -> AlcError {
        error_of_code(code)
    }
}

/// What a read of the native error-state register means: success for the
/// code of "no error", and for every other code the error it stands for.
pub open spec fn translated(code: i32) -> AlcResult<()> {
    if code == ALC_NO_ERROR {
        Ok(())
    } else {
        Err(error_of_code(code))
    }
}

/// Translates the code that was read from the native error-state register.
pub fn translate(code: i32) -> (r: AlcResult<()>)
    ensures
        r == translated(code),
{
    if code == ALC_NO_ERROR {
        Ok(())
    } else {
        Err(AlcError::from(code))
    }
}

impl AlError {
    /// The words that describe the error.
    pub open spec fn text(self) -> Seq<char> {
        match self {
            AlError::InvalidName => "AL ERROR: Invalid Name"@,
            AlError::InvalidEnum => "AL ERROR: Invalid Enum"@,
            AlError::InvalidValue => "AL ERROR: Invalid Value"@,
            AlError::InvalidOperation => "AL ERROR: Invalid Operation"@,
            AlError::OutOfMemory => "AL ERROR: Invalid Memory"@,
            AlError::UnknownError => "AL ERROR: Unknown Error"@,
        }
    }

    /// Describes the error in a few words.
    pub fn description(&self) -> (words: &'static str)
        ensures
            words@ == self.text(),
    {
        match *self {
            AlError::InvalidName => "AL ERROR: Invalid Name",
            AlError::InvalidEnum => "AL ERROR: Invalid Enum",
            AlError::InvalidValue => "AL ERROR: Invalid Value",
            AlError::InvalidOperation => "AL ERROR: Invalid Operation",
            AlError::OutOfMemory => "AL ERROR: Invalid Memory",
            AlError::UnknownError => "AL ERROR: Unknown Error",
        }
    }
}

impl AlcError {
    /// The words that describe the error. An error of the rendering domain
    /// is described in that domain's words.
    pub open spec fn text(self) -> Seq<char> {
        match self {
            AlcError::InvalidDevice => "ALC ERROR: Invalid Device"@,
            AlcError::InvalidContext => "ALC ERROR: Invalid Context"@,
            AlcError::InvalidEnum => "ALC ERROR: Invalid Enum"@,
            AlcError::InvalidValue => "ALC ERROR: Invalid Value"@,
            AlcError::OutOfMemory => "ALC ERROR: Invalid Memory"@,
            AlcError::UnsupportedVersion => "ALC ERROR: Unsupported Version"@,
            AlcError::ExtensionNotPresent => "ALC ERROR: Extension Not Present"@,
            AlcError::Al(al) => al.text(),
            AlcError::UnknownError => "ALC ERROR: Unknown Error"@,
        }
    }

    /// Describes the error in a few words.
    pub fn description(&self) -> (words: &'static str)
        ensures
            words@ == self.text(),
    {
        match *self {
            AlcError::InvalidDevice => "ALC ERROR: Invalid Device",
            AlcError::InvalidContext => "ALC ERROR: Invalid Context",
            AlcError::InvalidEnum => "ALC ERROR: Invalid Enum",
            AlcError::InvalidValue => "ALC ERROR: Invalid Value",
            AlcError::OutOfMemory => "ALC ERROR: Invalid Memory",
            AlcError::UnsupportedVersion => "ALC ERROR: Unsupported Version",
            AlcError::ExtensionNotPresent => "ALC ERROR: Extension Not Present",
            AlcError::Al(al) => al.description(),
            AlcError::UnknownError => "ALC ERROR: Unknown Error",
        }
    }
}

} // verus!
