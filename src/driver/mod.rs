//! The higher-level drivers of the NDJSON parser. Each one owns an engine and an upstream source
//! of byte chunks and decides, one step at a time, whether a record can be handed out, the input
//! has ended, or one more chunk must be pulled from upstream.

use vstd::prelude::*;

use serde::de::DeserializeOwned;

use crate::bytes::AsBytes;
use crate::config::NdjsonConfig;
use crate::engine::NdjsonEngine;
use crate::fallible::{fallible_of, into_fallible, FallibleNdjsonError, FallibleNdjsonResult};
use crate::lines::{lines_kept, rest_of, rest_record};

pub mod iter;
pub mod streams;

pub use crate::driver::iter::{FallibleNdjsonIter, NdjsonIter};
pub use crate::driver::streams::{FallibleNdjsonStream, NdjsonStream};

verus! {

/// What a driver does after one decision step.
#[derive(Debug)]
pub enum Step<V> {
    /// Hand this to the consumer: a record, or `None` once the input is exhausted.
    Ready(Option<V>),
    /// Nothing can be handed out yet: pull one more item from upstream.
    Pull,
}

/// The decision state of a driver: its engine and whether its upstream has been exhausted.
pub struct DriverState<T> {
    engine: NdjsonEngine<T>,
    exhausted: bool,
}

/// `after` is `before` with the chunk `bytes` fed to its engine.
pub open spec fn fed<T>(before: DriverState<T>, bytes: Seq<u8>, after: DriverState<T>) -> bool {
    let h = before.engine().config().handling();
    &&& after.wf()
    &&& !after.is_exhausted()
    &&& after.engine().config() == before.engine().config()
    &&& after.engine().queued() == before.engine().queued() + lines_kept(
        before.engine().rest() + bytes,
        h,
    )
    &&& after.engine().rest() == rest_of(before.engine().rest() + bytes)
}

/// `after` is `before` once its upstream has ended, its rest finalized and the outcome of the
/// rest, if any, handed out as `r`.
pub open spec fn ended<T>(
    before: DriverState<T>,
    after: DriverState<T>,
    r: Option<serde_json::Result<T>>,
) -> bool {
    &&& after.wf()
    &&& after.is_exhausted()
    &&& after.engine().config() == before.engine().config()
    &&& after.engine().queued() == Seq::<Seq<u8>>::empty()
    &&& after.engine().rest() == Seq::<u8>::empty()
    &&& (r is Some <==> rest_record(before.engine().config(), before.engine().rest()).len() > 0)
}

/// What the first half of a step yields in the state `before`: the oldest queued outcome, else
/// the end once upstream is exhausted, else a request to pull.
pub open spec fn queued_step<T>(before: DriverState<T>) -> Step<serde_json::Result<T>> {
    if before.engine().queued().len() > 0 {
        Step::Ready(Some(before.engine().outcomes()[0]))
    } else if before.is_exhausted() {
        Step::Ready(None)
    } else {
        Step::Pull
    }
}

/// `after` is `before` with the oldest queued outcome taken out; unchanged if none is queued.
pub open spec fn polled<T>(before: DriverState<T>, after: DriverState<T>) -> bool {
    if before.engine().queued().len() > 0 {
        &&& after.wf()
        &&& after.is_exhausted() == before.is_exhausted()
        &&& after.engine().config() == before.engine().config()
        &&& after.engine().rest() == before.engine().rest()
        &&& after.engine().queued() == before.engine().queued().drop_first()
        &&& after.engine().outcomes() == before.engine().outcomes().drop_first()
    } else {
        after == before
    }
}

/// What the second half of a step does with the item `item` that upstream returned: `after` and
/// `r` follow from `before` as [DriverState::accept] states.
pub open spec fn accepted<T, B: AsBytes>(
    before: DriverState<T>,
    item: Option<B>,
    after: DriverState<T>,
    r: Step<serde_json::Result<T>>,
) -> bool {
    match item {
        Some(bytes) => r == Step::<serde_json::Result<T>>::Pull && fed(
            before,
            bytes.byte_view(),
            after,
        ),
        None => r matches Step::Ready(outcome) && ended(before, after, outcome),
    }
}

/// What the second half of a fallible driver's step does with the item `item` that upstream
/// returned, as [DriverState::accept_fallible] states.
pub open spec fn accepted_fallible<T, B: AsBytes, E>(
    before: DriverState<T>,
    item: Option<Result<B, E>>,
    after: DriverState<T>,
    r: Step<FallibleNdjsonResult<T, E>>,
) -> bool {
    match item {
        Some(Err(error)) => r == Step::Ready(
            Some(Err::<T, _>(FallibleNdjsonError::InputError(error))),
        ) && after == before,
        Some(Ok(bytes)) => r == Step::<FallibleNdjsonResult<T, E>>::Pull && fed(
            before,
            bytes.byte_view(),
            after,
        ),
        None => exists|outcome: Option<serde_json::Result<T>>|
            r == fallible_step::<T, E>(Step::Ready(outcome)) && #[trigger] ended(
                before,
                after,
                outcome,
            ),
    }
}

/// The step that a driver's decision yields once its outcomes are made fallible.
pub open spec fn fallible_step<V, E>(s: Step<serde_json::Result<V>>) -> Step<
    FallibleNdjsonResult<V, E>,
> {
    match s {
        Step::Ready(Some(outcome)) => Step::Ready(Some(fallible_of::<V, E>(outcome))),
        Step::Ready(None) => Step::Ready(None),
        Step::Pull => Step::Pull,
    }
}

/// Makes the outcomes of a step fallible.
pub(crate) fn into_fallible_step<V, E>(s: Step<serde_json::Result<V>>) -> (r: Step<
    FallibleNdjsonResult<V, E>,
>)
    ensures
        r == fallible_step::<V, E>(s),
{
    match s {
        Step::Ready(Some(outcome)) => Step::Ready(Some(into_fallible(outcome))),
        Step::Ready(None) => Step::Ready(None),
        Step::Pull => Step::Pull,
    }
}

impl<T> DriverState<T> {
    /// The engine that splits and decodes the input.
    pub closed spec fn engine(&self) -> NdjsonEngine<T> {
        self.engine
    }

    /// Whether the upstream has reported its end.
    pub closed spec fn is_exhausted(&self) -> bool {
        self.exhausted
    }

    /// The state's invariant: that of its engine.
    pub open spec fn wf(&self) -> bool {
        self.engine().wf()
    }

    /// A fresh state with the given config: nothing buffered, nothing queued, upstream open.
    pub fn with_config(config: NdjsonConfig) -> (r: DriverState<T>)
        ensures
            r.wf(),
            !r.is_exhausted(),
            r.engine().config() == config,
            r.engine().rest() == Seq::<u8>::empty(),
            r.engine().queued() == Seq::<Seq<u8>>::empty(),
            r.engine().outcomes() == Seq::<serde_json::Result<T>>::empty(),
    {
        DriverState { engine: NdjsonEngine::with_config(config), exhausted: false }
    }

    /// The first half of a driver step, made before upstream is asked: the oldest queued outcome
    /// if there is one, else the end if upstream is exhausted, else a request to pull.
    pub fn poll_queued(&mut self) -> (r: Step<serde_json::Result<T>>)
        requires
            old(self).wf(),
        ensures
            r == queued_step(*old(self)),
            polled(*old(self), *final(self)),
    {
        if self.engine.queued_len() == 0 {
            if self.exhausted {
                Step::Ready(None)
            } else {
                Step::Pull
            }
        } else {
            Step::Ready(self.engine.pop())
        }
    }
}

impl<T: DeserializeOwned> DriverState<T> {
    /// The second half of a driver step: handles what upstream returned when asked for one
    /// more chunk. A chunk is fed to the engine; the end of upstream finalizes the engine and
    /// hands out the outcome of the rest, if any, and from then on the end.
    pub fn accept<B: AsBytes>(&mut self, item: Option<B>) -> (r: Step<serde_json::Result<T>>)
        requires
            old(self).wf(),
            !old(self).is_exhausted(),
            old(self).engine().queued().len() == 0,
        ensures
            accepted(*old(self), item, *final(self), r),
    {
        match item {
            Some(bytes) => {
                self.engine.input(bytes);
                Step::Pull
            },
            None => {
                self.exhausted = true;
                self.engine.finalize();
                let outcome = self.engine.pop();
                assert(self.engine.queued() =~= Seq::<Seq<u8>>::empty());
                Step::Ready(outcome)
            },
        }
    }

    /// The second half of a fallible driver's step: an input error is handed out at once and
    /// leaves the state as it was; a chunk or the end is handled as by [DriverState::accept].
    pub fn accept_fallible<B: AsBytes, E>(&mut self, item: Option<Result<B, E>>) -> (r: Step<
        FallibleNdjsonResult<T, E>,
    >)
        requires
            old(self).wf(),
            !old(self).is_exhausted(),
            old(self).engine().queued().len() == 0,
        ensures
            accepted_fallible(*old(self), item, *final(self), r),
    {
        match item {
            Some(Err(error)) => Step::Ready(Some(Err(FallibleNdjsonError::InputError(error)))),
            Some(Ok(bytes)) => {
                self.accept(Some(bytes));
                Step::Pull
            },
            None => into_fallible_step(self.accept(None::<B>)),
        }
    }
}

} // verus!
