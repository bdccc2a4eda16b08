//! The pull-based drivers: they wrap an [Iterator] of data blocks and decide, one step at a
//! time, what the next record is.

use vstd::prelude::*;

use serde::de::DeserializeOwned;

use crate::bytes::AsBytes;
use crate::config::NdjsonConfig;
use crate::driver::{
    accepted, accepted_fallible, fallible_step, into_fallible_step, polled, queued_step,
    DriverState, Step,
};
use crate::fallible::FallibleNdjsonResult;

verus! {

/// Wraps an iterator of data blocks, i.e. types implementing [AsBytes], and yields the records
/// parsed from them one [NdjsonIter::step] at a time. See [from_iter] and
/// [from_iter_with_config].
pub struct NdjsonIter<T, I> {
    state: DriverState<T>,
    bytes_iterator: I,
}

impl<T, I> NdjsonIter<T, I> {
    /// The driver's decision state.
    pub closed spec fn state(&self) -> DriverState<T> {
        self.state
    }

    /// The wrapped iterator of data blocks.
    pub closed spec fn upstream(&self) -> I {
        self.bytes_iterator
    }

    /// Creates a new NDJSON iterator wrapping the given `bytes_iterator` with the default
    /// [NdjsonConfig].
    pub fn new(bytes_iterator: I) -> (r: NdjsonIter<T, I>)
        ensures
            r.state().wf(),
            !r.state().is_exhausted(),
            r.state().engine().config() == NdjsonConfig::default_config(),
            r.state().engine().rest() == Seq::<u8>::empty(),
            r.state().engine().queued() == Seq::<Seq<u8>>::empty(),
            r.upstream() == bytes_iterator,
    {
        NdjsonIter::with_config(bytes_iterator, NdjsonConfig::default())
    }

    /// Creates a new NDJSON iterator wrapping the given `bytes_iterator` with the given
    /// [NdjsonConfig] to control its behavior.
    pub fn with_config(bytes_iterator: I, config: NdjsonConfig) -> (r: NdjsonIter<T, I>)
        ensures
            r.state().wf(),
            !r.state().is_exhausted(),
            r.state().engine().config() == config,
            r.state().engine().rest() == Seq::<u8>::empty(),
            r.state().engine().queued() == Seq::<Seq<u8>>::empty(),
            r.upstream() == bytes_iterator,
    {
        NdjsonIter { state: DriverState::with_config(config), bytes_iterator }
    }
}

impl<T: DeserializeOwned, I: Iterator> NdjsonIter<T, I> where I::Item: AsBytes {
    /// One step towards the next record. A queued outcome is handed out, or the end once the
    /// wrapped iterator has ended, without asking the wrapped iterator; otherwise exactly one
    /// item is pulled from it and handled. The next record is what the first step that is
    /// `Ready` yields.
    pub fn step(&mut self) -> (r: Step<serde_json::Result<T>>)
        requires
            old(self).state().wf(),
        ensures
            final(self).state().wf(),
            if old(self).state().engine().queued().len() > 0 || old(self).state().is_exhausted() {
                &&& r == queued_step(old(self).state())
                &&& polled(old(self).state(), final(self).state())
                &&& final(self).upstream() == old(self).upstream()
            } else {
                exists|item: Option<I::Item>| #[trigger]
                    accepted(old(self).state(), item, final(self).state(), r)
            },
    {
        match self.state.poll_queued() {
            Step::Pull => {
                let item = self.bytes_iterator.next();
                let ghost pulled = item;
                let r = self.state.accept(item);
                assert(accepted(old(self).state(), pulled, self.state(), r));
                r
            },
            Step::Ready(outcome) => Step::Ready(outcome),
        }
    }
}

/// Wraps an iterator of [Result]s of data blocks, i.e. types implementing [AsBytes], and yields
/// the records parsed from them one [FallibleNdjsonIter::step] at a time, forwarding the errors
/// of the wrapped iterator. See [from_fallible_iter] and [from_fallible_iter_with_config].
pub struct FallibleNdjsonIter<T, I> {
    state: DriverState<T>,
    bytes_iterator: I,
}

impl<T, I> FallibleNdjsonIter<T, I> {
    /// The driver's decision state.
    pub closed spec fn state(&self) -> DriverState<T> {
        self.state
    }

    /// The wrapped iterator of data block results.
    pub closed spec fn upstream(&self) -> I {
        self.bytes_iterator
    }

    /// Creates a new fallible NDJSON iterator wrapping the given `bytes_iterator` with the
    /// default [NdjsonConfig].
    pub fn new(bytes_iterator: I) -> (r: FallibleNdjsonIter<T, I>)
        ensures
            r.state().wf(),
            !r.state().is_exhausted(),
            r.state().engine().config() == NdjsonConfig::default_config(),
            r.state().engine().rest() == Seq::<u8>::empty(),
            r.state().engine().queued() == Seq::<Seq<u8>>::empty(),
            r.upstream() == bytes_iterator,
    {
        FallibleNdjsonIter::with_config(bytes_iterator, NdjsonConfig::default())
    }

    /// Creates a new fallible NDJSON iterator wrapping the given `bytes_iterator` with the given
    /// [NdjsonConfig] to control its behavior.
    pub fn with_config(bytes_iterator: I, config: NdjsonConfig) -> (r: FallibleNdjsonIter<T, I>)
        ensures
            r.state().wf(),
            !r.state().is_exhausted(),
            r.state().engine().config() == config,
            r.state().engine().rest() == Seq::<u8>::empty(),
            r.state().engine().queued() == Seq::<Seq<u8>>::empty(),
            r.upstream() == bytes_iterator,
    {
        FallibleNdjsonIter { state: DriverState::with_config(config), bytes_iterator }
    }
}

impl<T: DeserializeOwned, I: Iterator<Item = Result<B, E>>, B: AsBytes, E> FallibleNdjsonIter<
    T,
    I,
> {
    /// One step towards the next result, as [NdjsonIter::step]; an error of the wrapped
    /// iterator is handed out at once as an input error, and the buffered data survives it.
    pub fn step(&mut self) -> (r: Step<FallibleNdjsonResult<T, E>>)
        requires
            old(self).state().wf(),
        ensures
            final(self).state().wf(),
            if old(self).state().engine().queued().len() > 0 || old(self).state().is_exhausted() {
                &&& r == fallible_step::<T, E>(queued_step(old(self).state()))
                &&& polled(old(self).state(), final(self).state())
                &&& final(self).upstream() == old(self).upstream()
            } else {
                exists|item: Option<Result<B, E>>| #[trigger]
                    accepted_fallible(old(self).state(), item, final(self).state(), r)
            },
    {
        match self.state.poll_queued() {
            Step::Pull => {
                let item = self.bytes_iterator.next();
                self.state.accept_fallible(item)
            },
            ready => into_fallible_step(ready),
        }
    }
}

/// Wraps the given iterator of data blocks in an [NdjsonIter] with the default [NdjsonConfig].
/// A collection is passed by its iterator (`from_iter(blocks.into_iter())`).
pub fn from_iter<T, I: Iterator>(bytes_iterator: I) -> (r: NdjsonIter<T, I>)
    ensures
        r.state().engine().config() == NdjsonConfig::default_config(),
        r.state().engine().queued() == Seq::<Seq<u8>>::empty(),
        !r.state().is_exhausted(),
{
    NdjsonIter::new(bytes_iterator)
}

/// Wraps the given iterator of data blocks in an [NdjsonIter] with the given [NdjsonConfig].
pub fn from_iter_with_config<T, I: Iterator>(bytes_iterator: I, config: NdjsonConfig) -> (r:
    NdjsonIter<T, I>)
    ensures
        r.state().engine().config() == config,
        r.state().engine().queued() == Seq::<Seq<u8>>::empty(),
        !r.state().is_exhausted(),
{
    NdjsonIter::with_config(bytes_iterator, config)
}

/// Wraps the given iterator of data block results in a [FallibleNdjsonIter] with the default
/// [NdjsonConfig].
pub fn from_fallible_iter<T, I: Iterator>(bytes_iterator: I) -> (r: FallibleNdjsonIter<T, I>)
    ensures
        r.state().engine().config() == NdjsonConfig::default_config(),
        r.state().engine().queued() == Seq::<Seq<u8>>::empty(),
        !r.state().is_exhausted(),
{
    FallibleNdjsonIter::new(bytes_iterator)
}

/// Wraps the given iterator of data block results in a [FallibleNdjsonIter] with the given
/// [NdjsonConfig].
pub fn from_fallible_iter_with_config<T, I: Iterator>(bytes_iterator: I, config: NdjsonConfig) -> (r:
    FallibleNdjsonIter<T, I>)
    ensures
        r.state().engine().config() == config,
        r.state().engine().queued() == Seq::<Seq<u8>>::empty(),
        !r.state().is_exhausted(),
{
    FallibleNdjsonIter::with_config(bytes_iterator, config)
}

} // verus!
