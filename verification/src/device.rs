//! Device handles: output devices, loopback devices and capture devices.
//!
//! A handle exists only while its native device is open. Opening hands out
//! the handle; `close` takes it back and names the native release.

use vstd::prelude::*;
use crate::error::{error_of_code, translate, AlcError, AlcResult, ALC_NO_ERROR};
use crate::ext::{Alc, AlcCache, Extension};
use crate::native::{NativeCall, OpenReply, Step, NULL_DEVICE};
use crate::version::VersionGate;

verus! {

/// A device that sound can be rendered to.
pub trait OutputDevice {

}

/// What an attempt to open a device comes to: the handle to keep, or the
/// error. A null handle is `InvalidDevice` whatever the error state says; a
/// handle that came with an error code set is that error.
pub open spec fn opened(reply: OpenReply) -> AlcResult<usize> {
    if reply.handle == NULL_DEVICE {
        Err(AlcError::InvalidDevice)
    } else if reply.error != ALC_NO_ERROR {
        Err(error_of_code(reply.error))
    } else {
        Ok(reply.handle)
    }
}

/// Judges what the native API answered to an attempt to open a device.
pub fn check_opened(reply: OpenReply) -> (r: AlcResult<usize>)
    ensures
        r == opened(reply),
{
    if reply.handle == NULL_DEVICE {
        Err(AlcError::InvalidDevice)
    } else {
        match translate(reply.error) {
            Ok(()) => Ok(reply.handle),
            Err(e) => Err(e),
        }
    }
}

/// An open output device.
pub struct Device {
    dev: usize,
    cache: AlcCache,
}

/// An open loopback device: one that renders into a buffer of the
/// application's.
pub struct LoopbackDevice {
    dev: usize,
    cache: AlcCache,
}

/// An open capture device.
pub struct CaptureDevice {
    dev: usize,
}

impl Device {
    #[verifier::type_invariant]
    spec fn well_formed(self) -> bool {
        self.dev != NULL_DEVICE && self.cache.device() == self.dev
    }

    /// The native handle of the device.
    pub closed spec fn device(&self) -> usize {
        self.dev
    }

    /// What the device has answered about its extensions so far.
    pub closed spec fn answers(&self) -> Map<Extension, bool> {
        self.cache@
    }

    /// Opens an output device, the one that `specifier` names or the default
    /// one. The version gate comes first; then the native open is asked for;
    /// then its reply is judged.
    pub fn open<'a>(
        gate: &VersionGate,
        specifier: Option<&'a [u8]>,
        reply: Option<OpenReply>,
    ) -> (step: Step<'a, AlcResult<Device>>)
        ensures
            gate@ is None ==> step == Step::<AlcResult<Device>>::Need(NativeCall::GetVersion),
            gate@ matches Some(Err(e)) ==> step == Step::<AlcResult<Device>>::Done(Err(e)),
            gate@ == Some(Ok::<(), AlcError>(())) && reply is None ==> step == Step::<
                AlcResult<Device>,
            >::Need(NativeCall::OpenDevice { specifier }),
            gate@ == Some(Ok::<(), AlcError>(())) && reply is Some ==> (step matches Step::Done(
                result,
            ) && match opened(reply.unwrap()) {
                Ok(handle) => result matches Ok(device) && device.device() == handle
                    && device.answers() == Map::<Extension, bool>::empty(),
                Err(e) => result matches Err(f) && f == e,
            }),
    {
        match gate.result() {
            None => Step::Need(NativeCall::GetVersion),
            Some(Err(e)) => Step::Done(Err(e)),
            Some(Ok(())) => match reply {
                None => Step::Need(NativeCall::OpenDevice { specifier }),
                Some(reply) => match check_opened(reply) {
                    Ok(dev) => Step::Done(Ok(Device { dev, cache: AlcCache::new(dev) })),
                    Err(e) => Step::Done(Err(e)),
                },
            },
        }
    }

    /// The native handle of the device. It is never the null handle.
    pub fn handle(&self) -> (handle: usize)
        ensures
            handle == self.device(),
            handle != NULL_DEVICE,
    {
        proof {
            use_type_invariant(self);
        }
        self.dev
    }

    /// Says whether the device has `ext`. An answer that the device has given
    /// before stands; otherwise the native lookup is asked for, and the reply
    /// is kept once it is handed in.
    pub fn is_extension_present(&mut self, ext: Alc, reply: Option<bool>) -> (step: Step<
        'static,
        bool,
    >)
        ensures
            final(self).device() == old(self).device(),
            final(self).answers() == AlcCache::remember(old(self).answers(), ext.key(), reply),
            final(self).answers().contains_key(ext.key()) ==> step == Step::<bool>::Done(
                final(self).answers()[ext.key()],
            ),
            !final(self).answers().contains_key(ext.key()) ==> step == Step::<bool>::Need(
                NativeCall::IsExtensionPresent { device: old(self).device(), extension: ext.key() },
            ),
    {
        proof {
            use_type_invariant(&*self);
        }
        self.cache.is_extension_present(ext.extension(), reply)
    }

    /// Ends the life of the handle and names the native call that releases
    /// the device.
    pub fn close(self) -> (call: NativeCall<'static>)
        ensures
            call == (NativeCall::CloseDevice { device: self.device() }),
            self.device() != NULL_DEVICE,
    {
        proof {
            use_type_invariant(&self);
        }
        NativeCall::CloseDevice { device: self.dev }
    }
}

impl OutputDevice for Device {

}

impl OutputDevice for LoopbackDevice {

}

impl LoopbackDevice {
    #[verifier::type_invariant]
    spec fn well_formed(self) -> bool {
        self.dev != NULL_DEVICE && self.cache.device() == self.dev
    }

    /// The native handle of the device.
    pub closed spec fn device(&self) -> usize {
        self.dev
    }

    /// What the device has answered about its extensions so far.
    pub closed spec fn answers(&self) -> Map<Extension, bool> {
        self.cache@
    }

    /// Opens a loopback device, the one that `specifier` names or the default
    /// one. The version gate comes first. Then the loopback extension is
    /// looked up in `global`, the cache of the global context: where it is
    /// absent the result is `ExtensionNotPresent` and no native open is asked
    /// for. Then the native open is asked for, and its reply is judged.
    pub fn open<'a>(
        gate: &VersionGate,
        global: &AlcCache,
        specifier: Option<&'a [u8]>,
        reply: Option<OpenReply>,
    ) -> (step: Step<'a, AlcResult<LoopbackDevice>>)
        ensures
            gate@ is None ==> step == Step::<AlcResult<LoopbackDevice>>::Need(
                NativeCall::GetVersion,
            ),
            gate@ matches Some(Err(e)) ==> step == Step::<AlcResult<LoopbackDevice>>::Done(Err(e)),
            gate@ == Some(Ok::<(), AlcError>(())) ==> {
                if !global@.contains_key(Extension::SoftLoopback) {
                    step == Step::<AlcResult<LoopbackDevice>>::Need(
                        NativeCall::IsExtensionPresent {
                            device: global.device(),
                            extension: Extension::SoftLoopback,
                        },
                    )
                } else if !global@[Extension::SoftLoopback] {
                    step == Step::<AlcResult<LoopbackDevice>>::Done(
                        Err(AlcError::ExtensionNotPresent),
                    )
                } else if reply is None {
                    step == Step::<AlcResult<LoopbackDevice>>::Need(
                        NativeCall::LoopbackOpenDevice { specifier },
                    )
                } else {
                    step matches Step::Done(result) && match opened(reply.unwrap()) {
                        Ok(handle) => result matches Ok(device) && device.device() == handle
                            && device.answers() == Map::<Extension, bool>::empty(),
                        Err(e) => result matches Err(f) && f == e,
                    }
                }
            },
    {
        match gate.result() {
            None => Step::Need(NativeCall::GetVersion),
            Some(Err(e)) => Step::Done(Err(e)),
            Some(Ok(())) => match global.lookup(Extension::SoftLoopback) {
                None => Step::Need(
                    NativeCall::IsExtensionPresent {
                        device: global.handle(),
                        extension: Extension::SoftLoopback,
                    },
                ),
                Some(false) => Step::Done(Err(AlcError::ExtensionNotPresent)),
                Some(true) => match reply {
                    None => Step::Need(NativeCall::LoopbackOpenDevice { specifier }),
                    Some(reply) => match check_opened(reply) {
                        Ok(dev) => Step::Done(
                            Ok(LoopbackDevice { dev, cache: AlcCache::new(dev) }),
                        ),
                        Err(e) => Step::Done(Err(e)),
                    },
                },
            },
        }
    }

    /// The native handle of the device. It is never the null handle.
    pub fn handle(&self) -> (handle: usize)
        ensures
            handle == self.device(),
            handle != NULL_DEVICE,
    {
        proof {
            use_type_invariant(self);
        }
        self.dev
    }

    /// Says whether the device has `ext`. An answer that the device has given
    /// before stands; otherwise the native lookup is asked for, and the reply
    /// is kept once it is handed in.
    pub fn is_extension_present(&mut self, ext: Alc, reply: Option<bool>) -> (step: Step<
        'static,
        bool,
    >)
        ensures
            final(self).device() == old(self).device(),
            final(self).answers() == AlcCache::remember(old(self).answers(), ext.key(), reply),
            final(self).answers().contains_key(ext.key()) ==> step == Step::<bool>::Done(
                final(self).answers()[ext.key()],
            ),
            !final(self).answers().contains_key(ext.key()) ==> step == Step::<bool>::Need(
                NativeCall::IsExtensionPresent { device: old(self).device(), extension: ext.key() },
            ),
    {
        proof {
            use_type_invariant(&*self);
        }
        self.cache.is_extension_present(ext.extension(), reply)
    }

    /// Ends the life of the handle and names the native call that releases
    /// the device.
    pub fn close(self) -> (call: NativeCall<'static>)
        ensures
            call == (NativeCall::CloseDevice { device: self.device() }),
            self.device() != NULL_DEVICE,
    {
        proof {
            use_type_invariant(&self);
        }
        NativeCall::CloseDevice { device: self.dev }
    }
}

impl CaptureDevice {
    #[verifier::type_invariant]
    spec fn well_formed(self) -> bool {
        self.dev != NULL_DEVICE
    }

    /// The native handle of the device.
    pub closed spec fn device(&self) -> usize {
        self.dev
    }

    /// Opens a capture device, the one that `specifier` names or the default
    /// one, to record at `frequency` samples a second in the native sample
    /// format `format` into a buffer of `size` samples. The version gate comes
    /// first; then the native open is asked for; then its reply is judged.
    pub fn open<'a>(
        gate: &VersionGate,
        specifier: Option<&'a [u8]>,
        frequency: u32,
        format: i32,
        size: i32,
        reply: Option<OpenReply>,
    ) -> (step: Step<'a, AlcResult<CaptureDevice>>)
        ensures
            gate@ is None ==> step == Step::<AlcResult<CaptureDevice>>::Need(
                NativeCall::GetVersion,
            ),
            gate@ matches Some(Err(e)) ==> step == Step::<AlcResult<CaptureDevice>>::Done(Err(e)),
            gate@ == Some(Ok::<(), AlcError>(())) && reply is None ==> step == Step::<
                AlcResult<CaptureDevice>,
            >::Need(NativeCall::CaptureOpenDevice { specifier, frequency, format, size }),
            gate@ == Some(Ok::<(), AlcError>(())) && reply is Some ==> (step matches Step::Done(
                result,
            ) && match opened(reply.unwrap()) {
                Ok(handle) => result matches Ok(device) && device.device() == handle,
                Err(e) => result matches Err(f) && f == e,
            }),
    {
        match gate.result() {
            None => Step::Need(NativeCall::GetVersion),
            Some(Err(e)) => Step::Done(Err(e)),
            Some(Ok(())) => match reply {
                None => Step::Need(
                    NativeCall::CaptureOpenDevice { specifier, frequency, format, size },
                ),
                Some(reply) => match check_opened(reply) {
                    Ok(dev) => Step::Done(Ok(CaptureDevice { dev })),
                    Err(e) => Step::Done(Err(e)),
                },
            },
        }
    }

    /// The native handle of the device. It is never the null handle.
    pub fn handle(&self) -> (handle: usize)
        ensures
            handle == self.device(),
            handle != NULL_DEVICE,
    {
        proof {
            use_type_invariant(self);
        }
        self.dev
    }

    /// Ends the life of the handle and names the native call that releases
    /// the device.
    pub fn close(self) -> (call: NativeCall<'static>)
        ensures
            call == (NativeCall::CaptureCloseDevice { device: self.device() }),
            self.device() != NULL_DEVICE,
    {
        proof {
            use_type_invariant(&self);
        }
        NativeCall::CaptureCloseDevice { device: self.dev }
    }
}

} // verus!
