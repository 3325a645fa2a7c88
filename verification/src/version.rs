//! The version gate: a check, made once, that the native API is of a
//! supported version.

use vstd::prelude::*;
use crate::error::{AlcError, AlcResult};
use crate::native::{NativeCall, Step};

verus! {

/// The supported versions: major version 1, minor version 1 or later.
pub open spec fn version_supported(major: i32, minor: i32) -> bool {
    major == 1 && minor >= 1
}

/// The outcome for a version: success where it is supported, and
/// `UnsupportedVersion` where it is not.
pub open spec fn version_result(major: i32, minor: i32) -> AlcResult<()> {
    if version_supported(major, minor) {
        Ok(())
    } else {
        Err(AlcError::UnsupportedVersion)
    }
}

/// Checks the version numbers that the global context reported.
pub fn check_version(major: i32, minor: i32) -> (r: AlcResult<()>)
    ensures
        r == version_result(major, minor),
{
    if major == 1 && minor >= 1 {
        Ok(())
    } else {
        Err(AlcError::UnsupportedVersion)
    }
}

/// The memory of the version gate: nothing until the version has been
/// examined, and the outcome of that one examination ever after.
pub struct VersionGate {
    outcome: Option<AlcResult<()>>,
}

impl View for VersionGate {
    type V = Option<AlcResult<()>>;

    closed spec fn view(&self) -> Option<AlcResult<()>> {
        self.outcome
    }
}

impl VersionGate {
    /// What is remembered after a call of `ensure_supported`: an outcome that
    /// is there stays, and a version that is handed in decides where there was
    /// no outcome.
    pub open spec fn remember(
        gate: Option<AlcResult<()>>,
        version: Option<(i32, i32)>,
    ) -> Option<AlcResult<()>> {
        if gate is Some {
            gate
        } else {
            match version {
                Some((major, minor)) => Some(version_result(major, minor)),
                None => None,
            }
        }
    }

    /// A gate that has not checked anything yet.
    pub fn new() -> (gate: VersionGate)
        ensures
            gate@ is None,
    {
        VersionGate { outcome: None }
    }

    /// The outcome of the check, if it has been made.
    pub fn result(&self) -> (r: Option<AlcResult<()>>)
        ensures
            r == self@,
    {
        self.outcome
    }

    /// Asks for passage. A gate that has examined the version gives that
    /// outcome and ignores `version`. One that has not asks for the version
    /// numbers, and examines them once they are handed in.
    pub fn ensure_supported(&mut self, version: Option<(i32, i32)>) -> (step: Step<
        'static,
        AlcResult<()>,
    >)
        ensures
            final(self)@ == Self::remember(old(self)@, version),
            match final(self)@ {
                Some(outcome) => step == Step::<AlcResult<()>>::Done(outcome),
                None => step == Step::<AlcResult<()>>::Need(NativeCall::GetVersion),
            },
    {
        match self.outcome {
            Some(outcome) => Step::Done(outcome),
            None => match version {
                Some((major, minor)) => {
                    let outcome = check_version(major, minor);
                    self.outcome = Some(outcome);
                    Step::Done(outcome)
                },
                None => Step::Need(NativeCall::GetVersion),
            },
        }
    }
}

/// What a version gate remembers after one caller after another has asked
/// for passage. A caller who is asked for the version reads it and
/// hands it in; `versions` holds, caller by caller, what that read would
/// bring.
pub open spec fn remembered(gate: Option<AlcResult<()>>, versions: Seq<(i32, i32)>) -> Option<
    AlcResult<()>,
>
    decreases versions.len(),
{
    if versions.len() == 0 {
        gate
    } else {
        VersionGate::remember(remembered(gate, versions.drop_last()), Some(versions.last()))
    }
}

/// The number of callers that were asked to read the version: those that
/// came to a gate without an outcome.
pub open spec fn version_reads(gate: Option<AlcResult<()>>, versions: Seq<(i32, i32)>) -> nat
    decreases versions.len(),
{
    if versions.len() == 0 {
        0
    } else {
        let earlier = version_reads(gate, versions.drop_last());
        if remembered(gate, versions.drop_last()) is None {
            earlier + 1
        } else {
            earlier
        }
    }
}

/// An outcome that a version gate holds is final: whoever asks later, and
/// whatever version is handed in, the outcome stays and nobody is asked to
/// read the version.
pub proof fn lemma_outcome_is_final(outcome: AlcResult<()>, versions: Seq<(i32, i32)>)
    ensures
        remembered(Some(outcome), versions) == Some(outcome),
        version_reads(Some(outcome), versions) == 0,
    decreases versions.len(),
{
    if versions.len() > 0 {
        lemma_outcome_is_final(outcome, versions.drop_last());
    }
}

/// Of any number of callers that come to a fresh version gate one after
/// another, exactly one is asked to read the version, the first, and every
/// caller leaves with the outcome of that one read.
pub proof fn lemma_version_read_once(versions: Seq<(i32, i32)>)
    requires
        versions.len() >= 1,
    ensures
        version_reads(None, versions) == 1,
        forall|callers: int|
            1 <= callers <= versions.len() ==> #[trigger] remembered(None, versions.take(callers))
                == Some(version_result(versions[0].0, versions[0].1)),
    decreases versions.len(),
{
    let first = Some(version_result(versions[0].0, versions[0].1));
    let earlier = versions.drop_last();
    if versions.len() == 1 {
        assert(remembered(None, earlier) is None);
        assert(version_reads(None, earlier) == 0);
    } else {
        lemma_version_read_once(earlier);
        assert(earlier.take(earlier.len() as int) =~= earlier);
        assert(remembered(None, earlier) == first);
    }
    assert(remembered(None, versions) == first);
    assert forall|callers: int| 1 <= callers <= versions.len() implies #[trigger] remembered(
        None,
        versions.take(callers),
    ) == first by {
        if callers == versions.len() {
            assert(versions.take(callers) =~= versions);
        } else {
            assert(versions.take(callers) =~= versions.drop_last().take(callers));
        }
    }
}

} // verus!
