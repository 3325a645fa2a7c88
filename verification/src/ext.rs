//! Optional extensions of the native API, and the per-device memory of which
//! of them are present.

use vstd::prelude::*;
use crate::native::{NativeCall, Step};

verus! {

/// The extensions that can be asked of an open device.
#[derive(Copy, Clone, PartialEq, Eq, Hash, Debug, Structural)]
pub enum Alc {
    Dedicated,
    Disconnect,
    Efx,
    SoftHrtf,
    SoftPauseDevice,
}

/// Every extension that a capability cache knows.
#[derive(Copy, Clone, PartialEq, Eq, Hash, Debug, Structural)]
pub enum Extension {
    EnumerateAll,
    Dedicated,
    Disconnect,
    Efx,
    SoftHrtf,
    SoftLoopback,
    SoftPauseDevice,
}

impl Alc {
    /// The key under which a capability cache holds this extension.
    pub open spec fn key(self) -> Extension {
        match self {
            Alc::Dedicated => Extension::Dedicated,
            Alc::Disconnect => Extension::Disconnect,
            Alc::Efx => Extension::Efx,
            Alc::SoftHrtf => Extension::SoftHrtf,
            Alc::SoftPauseDevice => Extension::SoftPauseDevice,
        }
    }

    /// The key under which a capability cache holds this extension.
    pub fn extension(self) -> (extension: Extension)
        ensures
            extension == self.key(),
    {
        match self {
            Alc::Dedicated => Extension::Dedicated,
            Alc::Disconnect => Extension::Disconnect,
            Alc::Efx => Extension::Efx,
            Alc::SoftHrtf => Extension::SoftHrtf,
            Alc::SoftPauseDevice => Extension::SoftPauseDevice,
        }
    }
}

/// What one device has answered about its extensions. An extension is asked
/// of the native API when it is first wanted; the answer is kept and never
/// asked for again, nor changed.
pub struct AlcCache {
    device: usize,
    enumerate_all: Option<bool>,
    dedicated: Option<bool>,
    disconnect: Option<bool>,
    efx: Option<bool>,
    soft_hrtf: Option<bool>,
    soft_loopback: Option<bool>,
    soft_pause_device: Option<bool>,
}

impl View for AlcCache {
    type V = Map<Extension, bool>;

    /// The answers so far: the extensions that were asked, each with whether
    /// it is present.
    closed spec fn view(&self) -> Map<Extension, bool> {
        Map::new(
            |extension: Extension| self.slot(extension) is Some,
            |extension: Extension| self.slot(extension).unwrap(),
        )
    }
}

impl AlcCache {
    spec fn slot(&self, extension: Extension) -> Option<bool> {
        match extension {
            Extension::EnumerateAll => self.enumerate_all,
            Extension::Dedicated => self.dedicated,
            Extension::Disconnect => self.disconnect,
            Extension::Efx => self.efx,
            Extension::SoftHrtf => self.soft_hrtf,
            Extension::SoftLoopback => self.soft_loopback,
            Extension::SoftPauseDevice => self.soft_pause_device,
        }
    }

    /// The handle of the device that the answers are about.
    pub closed spec fn device(&self) -> usize {
        self.device
    }

    /// The answers after a query for `extension`: an answer that is there
    /// stays, and a reply that is handed in becomes the answer where there was
    /// none.
    pub open spec fn remember(
        answers: Map<Extension, bool>,
        extension: Extension,
        reply: Option<bool>,
    ) -> Map<Extension, bool> {
        if answers.contains_key(extension) {
            answers
        } else {
            match reply {
                Some(present) => answers.insert(extension, present),
                None => answers,
            }
        }
    }

    /// A cache for `device` that holds no answer yet.
    pub fn new(device: usize) -> (cache: AlcCache)
        ensures
            cache.device() == device,
            cache@ == Map::<Extension, bool>::empty(),
    {
        let cache = AlcCache {
            device,
            enumerate_all: None,
            dedicated: None,
            disconnect: None,
            efx: None,
            soft_hrtf: None,
            soft_loopback: None,
            soft_pause_device: None,
        };
        assert(cache@ =~= Map::<Extension, bool>::empty());
        cache
    }

    /// The handle of the device that the answers are about.
    pub fn handle(&self) -> (device: usize)
        ensures
            device == self.device(),
    {
        self.device
    }

    /// The answer that the cache holds for `extension`, if it holds one.
    pub fn lookup(&self, extension: Extension) -> (answer: Option<bool>)
        ensures
            answer is Some <==> self@.contains_key(extension),
            answer matches Some(present) ==> present == self@[extension],
        no_unwind
    {
        match extension {
            Extension::EnumerateAll => self.enumerate_all,
            Extension::Dedicated => self.dedicated,
            Extension::Disconnect => self.disconnect,
            Extension::Efx => self.efx,
            Extension::SoftHrtf => self.soft_hrtf,
            Extension::SoftLoopback => self.soft_loopback,
            Extension::SoftPauseDevice => self.soft_pause_device,
        }
    }

    fn store(&mut self, extension: Extension, present: bool)
        ensures
            final(self).device() == old(self).device(),
            final(self)@ == old(self)@.insert(extension, present),
        no_unwind
    {
        match extension {
            Extension::EnumerateAll => self.enumerate_all = Some(present),
            Extension::Dedicated => self.dedicated = Some(present),
            Extension::Disconnect => self.disconnect = Some(present),
            Extension::Efx => self.efx = Some(present),
            Extension::SoftHrtf => self.soft_hrtf = Some(present),
            Extension::SoftLoopback => self.soft_loopback = Some(present),
            Extension::SoftPauseDevice => self.soft_pause_device = Some(present),
        }
        assert(self@ =~= old(self)@.insert(extension, present));
    }

    /// Says whether the device has `extension`. A cache that holds the answer
    /// gives it and ignores `reply`. One that does not asks for the native
    /// lookup, and keeps the reply once it is handed in.
    pub fn is_extension_present(&mut self, extension: Extension, reply: Option<bool>) -> (step:
        Step<'static, bool>)
        ensures
            final(self).device() == old(self).device(),
            final(self)@ == Self::remember(old(self)@, extension, reply),
            final(self)@.contains_key(extension) ==> step == Step::<bool>::Done(
                final(self)@[extension],
            ),
            !final(self)@.contains_key(extension) ==> step == Step::<bool>::Need(
                NativeCall::IsExtensionPresent { device: old(self).device(), extension },
            ),
        no_unwind
    {
        match self.lookup(extension) {
            Some(present) => Step::Done(present),
            None => match reply {
                Some(present) => {
                    self.store(extension, present);
                    Step::Done(present)
                },
                None => Step::Need(
                    NativeCall::IsExtensionPresent { device: self.device, extension },
                ),
            },
        }
    }
}

/// The answers of a cache after `extension` has been asked of it once for
/// each element of `replies`. A query that finds no answer makes the native
/// lookup and hands in what it brought; `replies` holds, query by query, what
/// that lookup would bring.
pub open spec fn answered(answers: Map<Extension, bool>, extension: Extension, replies: Seq<bool>)
    -> Map<Extension, bool>
    decreases replies.len(),
{
    if replies.len() == 0 {
        answers
    } else {
        AlcCache::remember(
            answered(answers, extension, replies.drop_last()),
            extension,
            Some(replies.last()),
        )
    }
}

/// The number of those queries that made the native lookup: the ones that
/// found no answer.
pub open spec fn native_lookups(
    answers: Map<Extension, bool>,
    extension: Extension,
    replies: Seq<bool>,
) -> nat
    decreases replies.len(),
{
    if replies.len() == 0 {
        0
    } else {
        let earlier = native_lookups(answers, extension, replies.drop_last());
        if answered(answers, extension, replies.drop_last()).contains_key(extension) {
            earlier
        } else {
            earlier + 1
        }
    }
}

/// An answer that a cache holds stands: a query for any extension, with any
/// reply, leaves it as it is.
pub proof fn lemma_answer_stands(
    answers: Map<Extension, bool>,
    known: Extension,
    asked: Extension,
    reply: Option<bool>,
)
    requires
        answers.contains_key(known),
    ensures
        AlcCache::remember(answers, asked, reply).contains_key(known),
        AlcCache::remember(answers, asked, reply)[known] == answers[known],
{
}

/// However often one extension is asked of a cache, the native lookup is
/// made at most once: not at all where the cache held the answer, and once,
/// by the first query, where it did not. Every query ends with the same
/// answer.
pub proof fn lemma_lookup_at_most_once(
    answers: Map<Extension, bool>,
    extension: Extension,
    replies: Seq<bool>,
)
    requires
        replies.len() >= 1,
    ensures
        answers.contains_key(extension) ==> native_lookups(answers, extension, replies) == 0,
        !answers.contains_key(extension) ==> native_lookups(answers, extension, replies) == 1,
        forall|queries: int|
            1 <= queries <= replies.len() ==> {
                let after = #[trigger] answered(answers, extension, replies.take(queries));
                after.contains_key(extension) && after[extension] == if answers.contains_key(
                    extension,
                ) {
                    answers[extension]
                } else {
                    replies[0]
                }
            },
    decreases replies.len(),
{
    let answer = if answers.contains_key(extension) {
        answers[extension]
    } else {
        replies[0]
    };
    let earlier = replies.drop_last();
    if replies.len() == 1 {
        assert(answered(answers, extension, earlier) == answers);
        assert(native_lookups(answers, extension, earlier) == 0);
    } else {
        lemma_lookup_at_most_once(answers, extension, earlier);
        assert(earlier.take(earlier.len() as int) =~= earlier);
        let before = answered(answers, extension, earlier);
        assert(before.contains_key(extension) && before[extension] == answer);
    }
    let last = answered(answers, extension, replies);
    assert(last.contains_key(extension) && last[extension] == answer);
    assert forall|queries: int| 1 <= queries <= replies.len() implies {
        let after = #[trigger] answered(answers, extension, replies.take(queries));
        after.contains_key(extension) && after[extension] == answer
    } by {
        if queries == replies.len() {
            assert(replies.take(queries) =~= replies);
        } else {
            assert(replies.take(queries) =~= replies.drop_last().take(queries));
        }
    }
}

} // verus!
