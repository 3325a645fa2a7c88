use alc::enumerate::{
    default_capture, default_impl, default_output, enumerate_captures, enumerate_impls,
    enumerate_outputs,
};
use alc::error::{AlcError, AlcResult};
use alc::ext::{AlcCache, Extension};
use alc::native::{NativeCall, Step, StringQuery, StringReply, NULL_DEVICE};
use alc::version::VersionGate;

fn open_gate() -> VersionGate {
    let mut gate = VersionGate::new();
    assert_eq!(gate.ensure_supported(Some((1, 1))), Step::Done(Ok(())));
    gate
}

fn shut_gate() -> VersionGate {
    let mut gate = VersionGate::new();
    assert_eq!(
        gate.ensure_supported(Some((1, 0))),
        Step::Done(Err(AlcError::UnsupportedVersion))
    );
    gate
}

fn global_with(extension: Extension, present: bool) -> AlcCache {
    let mut cache = AlcCache::new(NULL_DEVICE);
    assert_eq!(cache.is_extension_present(extension, Some(present)), Step::Done(present));
    cache
}

fn reply(bytes: &[u8], error: i32) -> Option<StringReply> {
    Some(StringReply { bytes: bytes.to_vec(), error })
}

#[test]
fn queries_ask_for_the_version_first() {
    let gate = VersionGate::new();
    let global = global_with(Extension::EnumerateAll, true);
    let need_bytes: Step<'static, AlcResult<Vec<u8>>> = Step::Need(NativeCall::GetVersion);
    let need_list: Step<'static, AlcResult<Vec<Vec<u8>>>> = Step::Need(NativeCall::GetVersion);
    assert_eq!(default_impl(&gate, None), need_bytes);
    assert_eq!(default_impl(&gate, reply(b"x", 0)), need_bytes);
    assert_eq!(default_output(&gate, &global, None), need_bytes);
    assert_eq!(default_capture(&gate, None), need_bytes);
    assert_eq!(enumerate_impls(&gate, None), need_list);
    assert_eq!(enumerate_impls(&gate, reply(b"x\0\0", 0)), need_list);
    assert_eq!(enumerate_outputs(&gate, &global, None), need_list);
    assert_eq!(enumerate_captures(&gate, None), need_list);
}

#[test]
fn queries_fail_behind_a_shut_gate() {
    let gate = shut_gate();
    let global = AlcCache::new(NULL_DEVICE);
    let failed_bytes: Step<'static, AlcResult<Vec<u8>>> =
        Step::Done(Err(AlcError::UnsupportedVersion));
    let failed_list: Step<'static, AlcResult<Vec<Vec<u8>>>> =
        Step::Done(Err(AlcError::UnsupportedVersion));
    assert_eq!(default_impl(&gate, None), failed_bytes);
    assert_eq!(default_impl(&gate, reply(b"x", 0)), failed_bytes);
    assert_eq!(default_output(&gate, &global, None), failed_bytes);
    assert_eq!(default_output(&gate, &global, reply(b"x", 0)), failed_bytes);
    assert_eq!(default_capture(&gate, None), failed_bytes);
    assert_eq!(enumerate_impls(&gate, None), failed_list);
    assert_eq!(enumerate_impls(&gate, reply(b"x\0\0", 0)), failed_list);
    assert_eq!(enumerate_outputs(&gate, &global, None), failed_list);
    assert_eq!(enumerate_captures(&gate, reply(b"x\0\0", 0)), failed_list);
}

#[test]
fn each_query_asks_for_its_own_string() {
    let gate = open_gate();
    assert_eq!(
        default_impl(&gate, None),
        Step::Need(NativeCall::GetString { query: StringQuery::DefaultDeviceSpecifier })
    );
    assert_eq!(
        default_capture(&gate, None),
        Step::Need(NativeCall::GetString { query: StringQuery::CaptureDefaultDeviceSpecifier })
    );
    assert_eq!(
        enumerate_impls(&gate, None),
        Step::Need(NativeCall::GetString { query: StringQuery::DeviceSpecifier })
    );
    assert_eq!(
        enumerate_captures(&gate, None),
        Step::Need(NativeCall::GetString { query: StringQuery::CaptureDeviceSpecifier })
    );
}

#[test]
fn default_queries_hand_the_bytes_on() {
    let gate = open_gate();
    assert_eq!(
        default_impl(&gate, reply(b"OpenAL Soft", 0)),
        Step::Done(Ok(b"OpenAL Soft".to_vec()))
    );
    assert_eq!(default_impl(&gate, reply(b"", 0)), Step::Done(Ok(vec![])));
    assert_eq!(default_capture(&gate, reply(b"Microphone", 0)), Step::Done(Ok(b"Microphone".to_vec())));
}

#[test]
fn default_queries_surface_the_native_error() {
    let gate = open_gate();
    assert_eq!(
        default_impl(&gate, reply(b"OpenAL Soft", 0xA003)),
        Step::Done(Err(AlcError::InvalidEnum))
    );
    assert_eq!(default_capture(&gate, reply(b"", 0xA005)), Step::Done(Err(AlcError::OutOfMemory)));
    assert_eq!(default_impl(&gate, reply(b"x", 99)), Step::Done(Err(AlcError::UnknownError)));
}

#[test]
fn list_queries_read_the_packed_list() {
    let gate = open_gate();
    assert_eq!(
        enumerate_impls(&gate, reply(b"OpenAL Soft\0\0", 0)),
        Step::Done(Ok(vec![b"OpenAL Soft".to_vec()]))
    );
    assert_eq!(
        enumerate_captures(&gate, reply(b"Mic\0Line In\0\0", 0)),
        Step::Done(Ok(vec![b"Mic".to_vec(), b"Line In".to_vec()]))
    );
    assert_eq!(enumerate_captures(&gate, reply(b"\0\0", 0)), Step::Done(Ok(vec![])));
}

#[test]
fn list_queries_surface_the_native_error_without_reading() {
    let gate = open_gate();
    assert_eq!(
        enumerate_impls(&gate, reply(b"OpenAL Soft\0\0", 0xA004)),
        Step::Done(Err(AlcError::InvalidValue))
    );
    assert_eq!(
        enumerate_captures(&gate, reply(b"", 0xA001)),
        Step::Done(Err(AlcError::InvalidDevice))
    );
}

#[test]
fn output_queries_look_up_enumerate_all_first() {
    let gate = open_gate();
    let global = AlcCache::new(NULL_DEVICE);
    let lookup = NativeCall::IsExtensionPresent { device: 0, extension: Extension::EnumerateAll };
    assert_eq!(default_output(&gate, &global, None), Step::Need(lookup));
    assert_eq!(default_output(&gate, &global, reply(b"x", 0)), Step::Need(lookup));
    assert_eq!(enumerate_outputs(&gate, &global, None), Step::Need(lookup));
    assert_eq!(enumerate_outputs(&gate, &global, reply(b"x\0\0", 0)), Step::Need(lookup));
}

#[test]
fn output_queries_ask_all_devices_where_the_extension_is_present() {
    let gate = open_gate();
    let global = global_with(Extension::EnumerateAll, true);
    assert_eq!(
        default_output(&gate, &global, None),
        Step::Need(NativeCall::GetString { query: StringQuery::DefaultAllDevicesSpecifier })
    );
    assert_eq!(
        enumerate_outputs(&gate, &global, None),
        Step::Need(NativeCall::GetString { query: StringQuery::AllDevicesSpecifier })
    );
    assert_eq!(
        default_output(&gate, &global, reply(b"Speakers", 0)),
        Step::Done(Ok(b"Speakers".to_vec()))
    );
    assert_eq!(
        enumerate_outputs(&gate, &global, reply(b"Speakers\0HDMI\0\0", 0)),
        Step::Done(Ok(vec![b"Speakers".to_vec(), b"HDMI".to_vec()]))
    );
    assert_eq!(
        enumerate_outputs(&gate, &global, reply(b"", 0xA003)),
        Step::Done(Err(AlcError::InvalidEnum))
    );
}

#[test]
fn output_queries_fall_back_to_implementations_where_the_extension_is_absent() {
    let gate = open_gate();
    let global = global_with(Extension::EnumerateAll, false);
    assert_eq!(
        default_output(&gate, &global, None),
        Step::Need(NativeCall::GetString { query: StringQuery::DefaultDeviceSpecifier })
    );
    assert_eq!(
        enumerate_outputs(&gate, &global, None),
        Step::Need(NativeCall::GetString { query: StringQuery::DeviceSpecifier })
    );
    assert_eq!(
        default_output(&gate, &global, reply(b"OpenAL Soft", 0)),
        Step::Done(Ok(b"OpenAL Soft".to_vec()))
    );
    assert_eq!(
        default_output(&gate, &global, reply(b"OpenAL Soft", 0xA002)),
        Step::Done(Err(AlcError::InvalidContext))
    );
    assert_eq!(
        enumerate_outputs(&gate, &global, reply(b"OpenAL Soft\0\0", 0)),
        Step::Done(Ok(vec![b"OpenAL Soft".to_vec()]))
    );
}

#[test]
fn output_queries_do_not_look_at_other_answers() {
    let gate = open_gate();
    let global = global_with(Extension::SoftLoopback, true);
    assert_eq!(
        default_output(&gate, &global, None),
        Step::Need(NativeCall::IsExtensionPresent {
            device: 0,
            extension: Extension::EnumerateAll
        })
    );
}
