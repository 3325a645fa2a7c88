//! The protocol between the library and whoever holds the native API.
//!
//! A decision function of this library returns a [`Step`]: either the native
//! call that has to be made before it can decide, or its final result. The
//! caller makes the call, reads the error state where the call can set it, and
//! asks again with the answer.

use vstd::prelude::*;
use crate::ext::Extension;

verus! {

/// The handle that stands for "no device": the global context of the native
/// API. No open device has it.
pub const NULL_DEVICE: usize = 0;

/// The strings that can be asked of the global context.
#[derive(Copy, Clone, PartialEq, Eq, Hash, Debug)]
pub enum StringQuery {
    /// The specifier of the default implementation.
    DefaultDeviceSpecifier,
    /// The list of implementations.
    DeviceSpecifier,
    /// The specifier of the default output device.
    DefaultAllDevicesSpecifier,
    /// The list of output devices.
    AllDevicesSpecifier,
    /// The specifier of the default capture device.
    CaptureDefaultDeviceSpecifier,
    /// The list of capture devices.
    CaptureDeviceSpecifier,
}

/// One call of the native API, with the arguments it is to be made with.
#[derive(Copy, Clone, PartialEq, Eq, Debug)]
pub enum NativeCall<'a> {
    /// Read the major and the minor version number of the global context.
    GetVersion,
    /// Ask whether `device` has `extension`.
    IsExtensionPresent { device: usize, extension: Extension },
    /// Read a string of the global context, then its error state.
    GetString { query: StringQuery },
    /// Open an output device, then read the error state of the global
    /// context. Without a specifier the default device is meant.
    OpenDevice { specifier: Option<&'a [u8]> },
    /// Open a loopback device, then read the error state of the global
    /// context. Without a specifier the default device is meant.
    LoopbackOpenDevice { specifier: Option<&'a [u8]> },
    /// Open a capture device, then read the error state of the global
    /// context. Without a specifier the default device is meant.
    CaptureOpenDevice { specifier: Option<&'a [u8]>, frequency: u32, format: i32, size: i32 },
    /// Release the output or loopback device `device`.
    CloseDevice { device: usize },
    /// Release the capture device `device`.
    CaptureCloseDevice { device: usize },
}

/// What a decision function answers: the native call it needs first, or its
/// final result.
#[derive(PartialEq, Eq, Debug)]
pub enum Step<'a, T> {
    Need(NativeCall<'a>),
    Done(T),
}

/// What a string query brought: the bytes that the native API handed out, and
/// the error code that was read from the global context right after.
#[derive(PartialEq, Eq, Debug)]
pub struct StringReply {
    pub bytes: Vec<u8>,
    pub error: i32,
}

/// What an attempt to open a device brought: the handle that the native API
/// returned, and the error code that was read from the global context right after.
#[derive(Copy, Clone, PartialEq, Eq, Debug)]
pub struct OpenReply {
    pub handle: usize,
    pub error: i32,
}

} // verus!
