use alc::device::{check_opened, CaptureDevice, Device, LoopbackDevice};
use alc::error::AlcError;
use alc::ext::{Alc, AlcCache, Extension};
use alc::native::{NativeCall, OpenReply, Step, NULL_DEVICE};
use alc::version::VersionGate;

fn passing_gate() -> VersionGate {
    let mut gate = VersionGate::new();
    assert_eq!(gate.ensure_supported(Some((1, 1))), Step::Done(Ok(())));
    gate
}

fn failing_gate() -> VersionGate {
    let mut gate = VersionGate::new();
    assert_eq!(
        gate.ensure_supported(Some((0, 9))),
        Step::Done(Err(AlcError::UnsupportedVersion))
    );
    gate
}

fn global(loopback: Option<bool>) -> AlcCache {
    let mut cache = AlcCache::new(NULL_DEVICE);
    if let Some(present) = loopback {
        assert_eq!(
            cache.is_extension_present(Extension::SoftLoopback, Some(present)),
            Step::Done(present)
        );
    }
    cache
}

fn replied(handle: usize, error: i32) -> Option<OpenReply> {
    Some(OpenReply { handle, error })
}

fn opened_device(handle: usize) -> Device {
    match Device::open(&passing_gate(), None, replied(handle, 0)) {
        Step::Done(Ok(device)) => device,
        _ => panic!("the device did not open"),
    }
}

#[test]
fn check_opened_keeps_a_handle_that_came_without_error() {
    assert_eq!(check_opened(OpenReply { handle: 1, error: 0 }), Ok(1));
    assert_eq!(check_opened(OpenReply { handle: usize::MAX, error: 0 }), Ok(usize::MAX));
}

#[test]
fn check_opened_reads_a_null_handle_as_invalid_device() {
    assert_eq!(check_opened(OpenReply { handle: 0, error: 0 }), Err(AlcError::InvalidDevice));
    assert_eq!(check_opened(OpenReply { handle: 0, error: 0xA004 }), Err(AlcError::InvalidDevice));
    assert_eq!(check_opened(OpenReply { handle: 0, error: 0xA005 }), Err(AlcError::InvalidDevice));
    assert_eq!(check_opened(OpenReply { handle: 0, error: 77 }), Err(AlcError::InvalidDevice));
}

#[test]
fn check_opened_surfaces_the_error_that_came_with_a_handle() {
    assert_eq!(check_opened(OpenReply { handle: 8, error: 0xA001 }), Err(AlcError::InvalidDevice));
    assert_eq!(check_opened(OpenReply { handle: 8, error: 0xA002 }), Err(AlcError::InvalidContext));
    assert_eq!(check_opened(OpenReply { handle: 8, error: 0xA003 }), Err(AlcError::InvalidEnum));
    assert_eq!(check_opened(OpenReply { handle: 8, error: 0xA004 }), Err(AlcError::InvalidValue));
    assert_eq!(check_opened(OpenReply { handle: 8, error: 0xA005 }), Err(AlcError::OutOfMemory));
    assert_eq!(check_opened(OpenReply { handle: 8, error: 5 }), Err(AlcError::UnknownError));
}

#[test]
fn open_asks_for_the_version_first() {
    let gate = VersionGate::new();
    assert!(matches!(Device::open(&gate, None, None), Step::Need(NativeCall::GetVersion)));
    assert!(matches!(
        Device::open(&gate, Some(b"x"), replied(4, 0)),
        Step::Need(NativeCall::GetVersion)
    ));
    assert!(matches!(
        LoopbackDevice::open(&gate, &global(Some(true)), None, replied(4, 0)),
        Step::Need(NativeCall::GetVersion)
    ));
    assert!(matches!(
        CaptureDevice::open(&gate, None, 44100, 0x1101, 1024, replied(4, 0)),
        Step::Need(NativeCall::GetVersion)
    ));
}

#[test]
fn open_fails_behind_an_unsupported_version() {
    let gate = failing_gate();
    assert!(matches!(
        Device::open(&gate, None, None),
        Step::Done(Err(AlcError::UnsupportedVersion))
    ));
    assert!(matches!(
        Device::open(&gate, None, replied(4, 0)),
        Step::Done(Err(AlcError::UnsupportedVersion))
    ));
    assert!(matches!(
        LoopbackDevice::open(&gate, &global(Some(true)), None, replied(4, 0)),
        Step::Done(Err(AlcError::UnsupportedVersion))
    ));
    assert!(matches!(
        LoopbackDevice::open(&gate, &global(None), None, None),
        Step::Done(Err(AlcError::UnsupportedVersion))
    ));
    assert!(matches!(
        CaptureDevice::open(&gate, None, 44100, 0x1101, 1024, replied(4, 0)),
        Step::Done(Err(AlcError::UnsupportedVersion))
    ));
}

#[test]
fn open_hands_the_specifier_to_the_native_open() {
    let gate = passing_gate();
    match Device::open(&gate, Some(b"OpenAL Soft"), None) {
        Step::Need(call) => assert_eq!(
            call,
            NativeCall::OpenDevice { specifier: Some(&b"OpenAL Soft"[..]) }
        ),
        _ => panic!("no native open was asked for"),
    }
    match Device::open(&gate, None, None) {
        Step::Need(call) => assert_eq!(call, NativeCall::OpenDevice { specifier: None }),
        _ => panic!("no native open was asked for"),
    }
    match LoopbackDevice::open(&gate, &global(Some(true)), Some(b"loop"), None) {
        Step::Need(call) => assert_eq!(
            call,
            NativeCall::LoopbackOpenDevice { specifier: Some(&b"loop"[..]) }
        ),
        _ => panic!("no native open was asked for"),
    }
    match CaptureDevice::open(&gate, Some(b"Mic"), 48000, 0x1103, 4096, None) {
        Step::Need(call) => assert_eq!(
            call,
            NativeCall::CaptureOpenDevice {
                specifier: Some(&b"Mic"[..]),
                frequency: 48000,
                format: 0x1103,
                size: 4096
            }
        ),
        _ => panic!("no native open was asked for"),
    }
    match CaptureDevice::open(&gate, None, 8000, 0x1100, 0, None) {
        Step::Need(call) => assert_eq!(
            call,
            NativeCall::CaptureOpenDevice {
                specifier: None,
                frequency: 8000,
                format: 0x1100,
                size: 0
            }
        ),
        _ => panic!("no native open was asked for"),
    }
}

#[test]
fn open_of_a_device_that_does_not_exist_is_invalid_device() {
    let gate = passing_gate();
    assert!(matches!(
        Device::open(&gate, Some(b"NULL_DEVICE"), None),
        Step::Need(NativeCall::OpenDevice { specifier: Some(b"NULL_DEVICE") })
    ));
    assert!(matches!(
        Device::open(&gate, Some(b"NULL_DEVICE"), replied(0, 0)),
        Step::Done(Err(AlcError::InvalidDevice))
    ));
    assert!(matches!(
        Device::open(&gate, Some(b"NULL_DEVICE"), replied(0, 0xA004)),
        Step::Done(Err(AlcError::InvalidDevice))
    ));
}

#[test]
fn open_surfaces_a_native_error() {
    let gate = passing_gate();
    assert!(matches!(
        Device::open(&gate, None, replied(12, 0xA005)),
        Step::Done(Err(AlcError::OutOfMemory))
    ));
    assert!(matches!(
        LoopbackDevice::open(&gate, &global(Some(true)), None, replied(12, 0xA004)),
        Step::Done(Err(AlcError::InvalidValue))
    ));
    assert!(matches!(
        CaptureDevice::open(&gate, None, 44100, 0x1101, 1024, replied(12, 0xA003)),
        Step::Done(Err(AlcError::InvalidEnum))
    ));
    assert!(matches!(
        CaptureDevice::open(&gate, None, 44100, 0x1101, 1024, replied(0, 0)),
        Step::Done(Err(AlcError::InvalidDevice))
    ));
}

#[test]
fn open_gives_a_device_with_the_native_handle() {
    let gate = passing_gate();
    match Device::open(&gate, None, replied(0x7f00_1000, 0)) {
        Step::Done(Ok(device)) => assert_eq!(device.handle(), 0x7f00_1000),
        _ => panic!("the device did not open"),
    }
    match LoopbackDevice::open(&gate, &global(Some(true)), None, replied(31, 0)) {
        Step::Done(Ok(device)) => assert_eq!(device.handle(), 31),
        _ => panic!("the device did not open"),
    }
    match CaptureDevice::open(&gate, None, 44100, 0x1101, 1024, replied(32, 0)) {
        Step::Done(Ok(device)) => assert_eq!(device.handle(), 32),
        _ => panic!("the device did not open"),
    }
}

#[test]
fn loopback_open_looks_up_the_extension_before_anything_native() {
    let gate = passing_gate();
    let lookup = NativeCall::IsExtensionPresent { device: 0, extension: Extension::SoftLoopback };
    match LoopbackDevice::open(&gate, &global(None), None, None) {
        Step::Need(call) => assert_eq!(call, lookup),
        _ => panic!("no lookup was asked for"),
    }
    match LoopbackDevice::open(&gate, &global(None), None, replied(5, 0)) {
        Step::Need(call) => assert_eq!(call, lookup),
        _ => panic!("no lookup was asked for"),
    }
}

#[test]
fn loopback_open_without_the_extension_is_extension_not_present() {
    let gate = passing_gate();
    let absent = global(Some(false));
    assert!(matches!(
        LoopbackDevice::open(&gate, &absent, None, None),
        Step::Done(Err(AlcError::ExtensionNotPresent))
    ));
    assert!(matches!(
        LoopbackDevice::open(&gate, &absent, Some(b"loop"), None),
        Step::Done(Err(AlcError::ExtensionNotPresent))
    ));
    assert!(matches!(
        LoopbackDevice::open(&gate, &absent, None, replied(5, 0)),
        Step::Done(Err(AlcError::ExtensionNotPresent))
    ));
}

#[test]
fn loopback_open_runs_to_the_end_without_a_native_open_where_the_extension_is_absent() {
    let mut gate = VersionGate::new();
    let mut cache = AlcCache::new(NULL_DEVICE);
    let mut calls = Vec::new();
    let result = loop {
        match LoopbackDevice::open(&gate, &cache, None, None) {
            Step::Need(NativeCall::GetVersion) => {
                calls.push("version");
                let _ = gate.ensure_supported(Some((1, 1)));
            }
            Step::Need(NativeCall::IsExtensionPresent { device, extension }) => {
                assert_eq!(device, NULL_DEVICE);
                calls.push("extension");
                let _ = cache.is_extension_present(extension, Some(false));
            }
            Step::Need(_) => panic!("a native open was asked for"),
            Step::Done(result) => break result,
        }
    };
    assert!(matches!(result, Err(AlcError::ExtensionNotPresent)));
    assert_eq!(calls, vec!["version", "extension"]);
}

#[test]
fn a_new_device_has_answered_nothing() {
    let mut device = opened_device(40);
    for ext in [Alc::Dedicated, Alc::Disconnect, Alc::Efx, Alc::SoftHrtf, Alc::SoftPauseDevice] {
        assert_eq!(
            device.is_extension_present(ext, None),
            Step::Need(NativeCall::IsExtensionPresent { device: 40, extension: ext.extension() })
        );
    }
}

#[test]
fn a_device_keeps_its_first_answer() {
    let mut device = opened_device(41);
    assert_eq!(device.is_extension_present(Alc::Efx, Some(true)), Step::Done(true));
    assert_eq!(device.is_extension_present(Alc::Efx, Some(false)), Step::Done(true));
    assert_eq!(device.is_extension_present(Alc::Efx, None), Step::Done(true));
    assert_eq!(device.is_extension_present(Alc::Disconnect, Some(false)), Step::Done(false));
    assert_eq!(device.is_extension_present(Alc::Disconnect, Some(true)), Step::Done(false));
    assert_eq!(
        device.is_extension_present(Alc::SoftHrtf, None),
        Step::Need(NativeCall::IsExtensionPresent { device: 41, extension: Extension::SoftHrtf })
    );
    assert_eq!(device.handle(), 41);
}

#[test]
fn a_loopback_device_answers_like_an_output_device() {
    let gate = passing_gate();
    let mut device = match LoopbackDevice::open(&gate, &global(Some(true)), None, replied(50, 0)) {
        Step::Done(Ok(device)) => device,
        _ => panic!("the device did not open"),
    };
    assert_eq!(
        device.is_extension_present(Alc::SoftPauseDevice, None),
        Step::Need(NativeCall::IsExtensionPresent {
            device: 50,
            extension: Extension::SoftPauseDevice
        })
    );
    assert_eq!(device.is_extension_present(Alc::SoftPauseDevice, Some(true)), Step::Done(true));
    assert_eq!(device.is_extension_present(Alc::SoftPauseDevice, Some(false)), Step::Done(true));
    assert_eq!(device.is_extension_present(Alc::Dedicated, Some(false)), Step::Done(false));
    assert_eq!(device.close(), NativeCall::CloseDevice { device: 50 });
}

#[test]
fn close_names_the_release_of_the_handle_that_was_opened() {
    let device = opened_device(60);
    assert_eq!(device.close(), NativeCall::CloseDevice { device: 60 });

    let mut queried = opened_device(61);
    let _ = queried.is_extension_present(Alc::Efx, Some(true));
    assert_eq!(queried.close(), NativeCall::CloseDevice { device: 61 });

    let gate = passing_gate();
    match CaptureDevice::open(&gate, None, 44100, 0x1101, 1024, replied(62, 0)) {
        Step::Done(Ok(device)) => {
            assert_eq!(device.close(), NativeCall::CaptureCloseDevice { device: 62 })
        }
        _ => panic!("the device did not open"),
    }
}
