//! Device enumeration: the queries for the default specifiers and for the
//! lists of specifiers.

use vstd::prelude::*;
use crate::error::{translate, translated, AlcError, AlcResult, ALC_NO_ERROR};
use crate::ext::{AlcCache, Extension};
use crate::list::{parse_enum_spec, run, specifiers, terminated};
use crate::native::{NativeCall, Step, StringQuery, StringReply};
use crate::version::VersionGate;

verus! {

/// A result with its bytes as a sequence.
pub open spec fn string_view(result: AlcResult<Vec<u8>>) -> AlcResult<Seq<u8>> {
    match result {
        Ok(bytes) => Ok(bytes@),
        Err(e) => Err(e),
    }
}

/// A result with its strings as sequences.
pub open spec fn list_view(result: AlcResult<Vec<Vec<u8>>>) -> AlcResult<Seq<Seq<u8>>> {
    match result {
        Ok(strings) => Ok(strings.deep_view()),
        Err(e) => Err(e),
    }
}

/// What a query for one string comes to: the error that the error state
/// held, or else the bytes as they were handed out.
pub open spec fn string_outcome(reply: StringReply) -> AlcResult<Seq<u8>> {
    match translated(reply.error) {
        Ok(()) => Ok(reply.bytes@),
        Err(e) => Err(e),
    }
}

/// What a query for a list comes to: the error that the error state held, or
/// else the specifiers of the packed list.
pub open spec fn list_outcome(reply: StringReply) -> AlcResult<Seq<Seq<u8>>> {
    match translated(reply.error) {
        Ok(()) => Ok(specifiers(run(reply.bytes@))),
        Err(e) => Err(e),
    }
}

/// A reply to a query for a list can be read: one that came without an error
/// holds a terminated list.
pub open spec fn readable(reply: Option<StringReply>) -> bool {
    reply matches Some(r) ==> r.error == ALC_NO_ERROR ==> terminated(r.bytes@)
}

/// The parameter under which the default output device is asked for: that of
/// the enumerate-all extension where the global context has it, else that of
/// the default implementation.
pub open spec fn default_output_query(enumerate_all: bool) -> StringQuery {
    if enumerate_all {
        StringQuery::DefaultAllDevicesSpecifier
    } else {
        StringQuery::DefaultDeviceSpecifier
    }
}

/// The parameter under which the output devices are asked for: that of the
/// enumerate-all extension where the global context has it, else that of the
/// list of implementations.
pub open spec fn outputs_query(enumerate_all: bool) -> StringQuery {
    if enumerate_all {
        StringQuery::AllDevicesSpecifier
    } else {
        StringQuery::DeviceSpecifier
    }
}

fn query_string(gate: &VersionGate, query: StringQuery, reply: Option<StringReply>) -> (step: Step<
    'static,
    AlcResult<Vec<u8>>,
>)
    ensures
        gate@ is None ==> step == Step::<AlcResult<Vec<u8>>>::Need(NativeCall::GetVersion),
        gate@ matches Some(Err(e)) ==> step == Step::<AlcResult<Vec<u8>>>::Done(Err(e)),
        gate@ == Some(Ok::<(), AlcError>(())) && reply is None ==> step == Step::<
            AlcResult<Vec<u8>>,
        >::Need(NativeCall::GetString { query }),
        gate@ == Some(Ok::<(), AlcError>(())) && reply is Some ==> (step matches Step::Done(
            result,
        ) && string_view(result) == string_outcome(reply.unwrap())),
{
    match gate.result() {
        None => Step::Need(NativeCall::GetVersion),
        Some(Err(e)) => Step::Done(Err(e)),
        Some(Ok(())) => match reply {
            None => Step::Need(NativeCall::GetString { query }),
            Some(reply) => match translate(reply.error) {
                Ok(()) => Step::Done(Ok(reply.bytes)),
                Err(e) => Step::Done(Err(e)),
            },
        },
    }
}

fn query_list(gate: &VersionGate, query: StringQuery, reply: Option<StringReply>) -> (step: Step<
    'static,
    AlcResult<Vec<Vec<u8>>>,
>)
    requires
        readable(reply),
    ensures
        gate@ is None ==> step == Step::<AlcResult<Vec<Vec<u8>>>>::Need(NativeCall::GetVersion),
        gate@ matches Some(Err(e)) ==> step == Step::<AlcResult<Vec<Vec<u8>>>>::Done(Err(e)),
        gate@ == Some(Ok::<(), AlcError>(())) && reply is None ==> step == Step::<
            AlcResult<Vec<Vec<u8>>>,
        >::Need(NativeCall::GetString { query }),
        gate@ == Some(Ok::<(), AlcError>(())) && reply is Some ==> (step matches Step::Done(
            result,
        ) && list_view(result) == list_outcome(reply.unwrap())),
{
    match gate.result() {
        None => Step::Need(NativeCall::GetVersion),
        Some(Err(e)) => Step::Done(Err(e)),
        Some(Ok(())) => match reply {
            None => Step::Need(NativeCall::GetString { query }),
            Some(reply) => Step::Done(parse_enum_spec(translate(reply.error), reply.bytes.as_slice())),
        },
    }
}

/// The specifier of the default implementation. The version gate comes
/// first; then the string is asked for; then the reply is judged by the error
/// code it came with.
pub fn default_impl(gate: &VersionGate, reply: Option<StringReply>) -> (step: Step<
    'static,
    AlcResult<Vec<u8>>,
>)
    ensures
        gate@ is None ==> step == Step::<AlcResult<Vec<u8>>>::Need(NativeCall::GetVersion),
        gate@ matches Some(Err(e)) ==> step == Step::<AlcResult<Vec<u8>>>::Done(Err(e)),
        gate@ == Some(Ok::<(), AlcError>(())) && reply is None ==> step == Step::<
            AlcResult<Vec<u8>>,
        >::Need(NativeCall::GetString { query: StringQuery::DefaultDeviceSpecifier }),
        gate@ == Some(Ok::<(), AlcError>(())) && reply is Some ==> (step matches Step::Done(
            result,
        ) && string_view(result) == string_outcome(reply.unwrap())),
{
    query_string(gate, StringQuery::DefaultDeviceSpecifier, reply)
}

/// The specifier of the default output device. The version gate comes first.
/// Then the enumerate-all extension is looked up in `global`, the cache of
/// the global context: where it is present the default among all devices is
/// asked for, else the default implementation.
pub fn default_output(gate: &VersionGate, global: &AlcCache, reply: Option<StringReply>) -> (step:
    Step<'static, AlcResult<Vec<u8>>>)
    ensures
        gate@ is None ==> step == Step::<AlcResult<Vec<u8>>>::Need(NativeCall::GetVersion),
        gate@ matches Some(Err(e)) ==> step == Step::<AlcResult<Vec<u8>>>::Done(Err(e)),
        gate@ == Some(Ok::<(), AlcError>(())) ==> {
            if !global@.contains_key(Extension::EnumerateAll) {
                step == Step::<AlcResult<Vec<u8>>>::Need(
                    NativeCall::IsExtensionPresent {
                        device: global.device(),
                        extension: Extension::EnumerateAll,
                    },
                )
            } else if reply is None {
                step == Step::<AlcResult<Vec<u8>>>::Need(
                    NativeCall::GetString {
                        query: default_output_query(global@[Extension::EnumerateAll]),
                    },
                )
            } else {
                step matches Step::Done(result) && string_view(result) == string_outcome(
                    reply.unwrap(),
                )
            }
        },
{
    match gate.result() {
        None => Step::Need(NativeCall::GetVersion),
        Some(Err(e)) => Step::Done(Err(e)),
        Some(Ok(())) => match global.lookup(Extension::EnumerateAll) {
            None => Step::Need(
                NativeCall::IsExtensionPresent {
                    device: global.handle(),
                    extension: Extension::EnumerateAll,
                },
            ),
            Some(true) => query_string(gate, StringQuery::DefaultAllDevicesSpecifier, reply),
            Some(false) => default_impl(gate, reply),
        },
    }
}

/// The specifier of the default capture device. The version gate comes
/// first; then the string is asked for; then the reply is judged by the error
/// code it came with.
pub fn default_capture(gate: &VersionGate, reply: Option<StringReply>) -> (step: Step<
    'static,
    AlcResult<Vec<u8>>,
>)
    ensures
        gate@ is None ==> step == Step::<AlcResult<Vec<u8>>>::Need(NativeCall::GetVersion),
        gate@ matches Some(Err(e)) ==> step == Step::<AlcResult<Vec<u8>>>::Done(Err(e)),
        gate@ == Some(Ok::<(), AlcError>(())) && reply is None ==> step == Step::<
            AlcResult<Vec<u8>>,
        >::Need(NativeCall::GetString { query: StringQuery::CaptureDefaultDeviceSpecifier }),
        gate@ == Some(Ok::<(), AlcError>(())) && reply is Some ==> (step matches Step::Done(
            result,
        ) && string_view(result) == string_outcome(reply.unwrap())),
{
    query_string(gate, StringQuery::CaptureDefaultDeviceSpecifier, reply)
}

/// The specifiers of the implementations. The version gate comes first; then
/// the packed list is asked for; then the reply is judged by the error code
/// it came with, and read.
pub fn enumerate_impls(gate: &VersionGate, reply: Option<StringReply>) -> (step: Step<
    'static,
    AlcResult<Vec<Vec<u8>>>,
>)
    requires
        readable(reply),
    ensures
        gate@ is None ==> step == Step::<AlcResult<Vec<Vec<u8>>>>::Need(NativeCall::GetVersion),
        gate@ matches Some(Err(e)) ==> step == Step::<AlcResult<Vec<Vec<u8>>>>::Done(Err(e)),
        gate@ == Some(Ok::<(), AlcError>(())) && reply is None ==> step == Step::<
            AlcResult<Vec<Vec<u8>>>,
        >::Need(NativeCall::GetString { query: StringQuery::DeviceSpecifier }),
        gate@ == Some(Ok::<(), AlcError>(())) && reply is Some ==> (step matches Step::Done(
            result,
        ) && list_view(result) == list_outcome(reply.unwrap())),
{
    query_list(gate, StringQuery::DeviceSpecifier, reply)
}

/// The specifiers of the output devices. The version gate comes first. Then
/// the enumerate-all extension is looked up in `global`, the cache of the
/// global context: where it is present the list of all devices is asked for,
/// else the list of implementations.
pub fn enumerate_outputs(gate: &VersionGate, global: &AlcCache, reply: Option<StringReply>) -> (step:
    Step<'static, AlcResult<Vec<Vec<u8>>>>)
    requires
        readable(reply),
    ensures
        gate@ is None ==> step == Step::<AlcResult<Vec<Vec<u8>>>>::Need(NativeCall::GetVersion),
        gate@ matches Some(Err(e)) ==> step == Step::<AlcResult<Vec<Vec<u8>>>>::Done(Err(e)),
        gate@ == Some(Ok::<(), AlcError>(())) ==> {
            if !global@.contains_key(Extension::EnumerateAll) {
                step == Step::<AlcResult<Vec<Vec<u8>>>>::Need(
                    NativeCall::IsExtensionPresent {
                        device: global.device(),
                        extension: Extension::EnumerateAll,
                    },
                )
            } else if reply is None {
                step == Step::<AlcResult<Vec<Vec<u8>>>>::Need(
                    NativeCall::GetString { query: outputs_query(global@[Extension::EnumerateAll]) },
                )
            } else {
                step matches Step::Done(result) && list_view(result) == list_outcome(
                    reply.unwrap(),
                )
            }
        },
{
    match gate.result() {
        None => Step::Need(NativeCall::GetVersion),
        Some(Err(e)) => Step::Done(Err(e)),
        Some(Ok(())) => match global.lookup(Extension::EnumerateAll) {
            None => Step::Need(
                NativeCall::IsExtensionPresent {
                    device: global.handle(),
                    extension: Extension::EnumerateAll,
                },
            ),
            Some(true) => query_list(gate, StringQuery::AllDevicesSpecifier, reply),
            Some(false) => enumerate_impls(gate, reply),
        },
    }
}

/// The specifiers of the capture devices. The version gate comes first; then
/// the packed list is asked for; then the reply is judged by the error code
/// it came with, and read.
pub fn enumerate_captures(gate: &VersionGate, reply: Option<StringReply>) -> (step: Step<
    'static,
    AlcResult<Vec<Vec<u8>>>,
>)
    requires
        readable(reply),
    ensures
        gate@ is None ==> step == Step::<AlcResult<Vec<Vec<u8>>>>::Need(NativeCall::GetVersion),
        gate@ matches Some(Err(e)) ==> step == Step::<AlcResult<Vec<Vec<u8>>>>::Done(Err(e)),
        gate@ == Some(Ok::<(), AlcError>(())) && reply is None ==> step == Step::<
            AlcResult<Vec<Vec<u8>>>,
        >::Need(NativeCall::GetString { query: StringQuery::CaptureDeviceSpecifier }),
        gate@ == Some(Ok::<(), AlcError>(())) && reply is Some ==> (step matches Step::Done(
            result,
        ) && list_view(result) == list_outcome(reply.unwrap())),
{
    query_list(gate, StringQuery::CaptureDeviceSpecifier, reply)
}

} // verus!
