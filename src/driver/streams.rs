//! The poll-based drivers: they own a stream of data blocks, which the caller polls, and decide
//! what the next record is from what the stream delivered. They decode exactly as the pull-based
//! drivers do; only the waiting for the next block is left to the caller.

use vstd::prelude::*;

use serde::de::DeserializeOwned;

use crate::bytes::AsBytes;
use crate::config::NdjsonConfig;
use crate::driver::{
    accepted, accepted_fallible, fallible_step, into_fallible_step, polled, queued_step,
    DriverState, Step,
};
use crate::fallible::FallibleNdjsonResult;

verus! {

/// Wraps a stream of data blocks, i.e. types implementing [AsBytes], and decides on the records
/// parsed from them. A poll of the next record is [NdjsonStream::poll_queued]; on
/// [Step::Pull], the stream is polled through [NdjsonStream::bytes_stream_mut] and its item,
/// once ready, handed to [NdjsonStream::accept]. See [from_stream] and [from_stream_with_config].
pub struct NdjsonStream<T, S> {
    state: DriverState<T>,
    bytes_stream: S,
}

impl<T, S> NdjsonStream<T, S> {
    /// The driver's decision state.
    pub closed spec fn state(&self) -> DriverState<T> {
        self.state
    }

    /// The wrapped stream of data blocks.
    pub closed spec fn upstream(&self) -> S {
        self.bytes_stream
    }

    /// Creates a new NDJSON stream wrapping the given `bytes_stream` with the default
    /// [NdjsonConfig].
    pub fn new(bytes_stream: S) -> (r: NdjsonStream<T, S>)
        ensures
            r.state().wf(),
            !r.state().is_exhausted(),
            r.state().engine().config() == NdjsonConfig::default_config(),
            r.state().engine().rest() == Seq::<u8>::empty(),
            r.state().engine().queued() == Seq::<Seq<u8>>::empty(),
            r.upstream() == bytes_stream,
    {
        NdjsonStream::with_config(bytes_stream, NdjsonConfig::default())
    }

    /// Creates a new NDJSON stream wrapping the given `bytes_stream` with the given
    /// [NdjsonConfig] to control its behavior.
    pub fn with_config(bytes_stream: S, config: NdjsonConfig) -> (r: NdjsonStream<T, S>)
        ensures
            r.state().wf(),
            !r.state().is_exhausted(),
            r.state().engine().config() == config,
            r.state().engine().rest() == Seq::<u8>::empty(),
            r.state().engine().queued() == Seq::<Seq<u8>>::empty(),
            r.upstream() == bytes_stream,
    {
        NdjsonStream { state: DriverState::with_config(config), bytes_stream }
    }

    /// The wrapped stream, to be polled for one more data block.
    pub fn bytes_stream_mut(&mut self) -> (r: &mut S)
        ensures
            *r == old(self).upstream(),
            final(self).upstream() == *final(r),
            final(self).state() == old(self).state(),
    {
        &mut self.bytes_stream
    }

    /// The first half of a poll, made before the stream is polled: the oldest queued outcome,
    /// else the end once the stream has ended, else [Step::Pull].
    pub fn poll_queued(&mut self) -> (r: Step<serde_json::Result<T>>)
        requires
            old(self).state().wf(),
        ensures
            r == queued_step(old(self).state()),
            polled(old(self).state(), final(self).state()),
            final(self).upstream() == old(self).upstream(),
    {
        self.state.poll_queued()
    }
}

impl<T: DeserializeOwned, S> NdjsonStream<T, S> {
    /// The second half of a poll: handles the item that the stream delivered, as
    /// [DriverState::accept] does.
    pub fn accept<B: AsBytes>(&mut self, item: Option<B>) -> (r: Step<serde_json::Result<T>>)
        requires
            old(self).state().wf(),
            !old(self).state().is_exhausted(),
            old(self).state().engine().queued().len() == 0,
        ensures
            accepted(old(self).state(), item, final(self).state(), r),
            final(self).upstream() == old(self).upstream(),
    {
        self.state.accept(item)
    }
}

/// Wraps a stream of [Result]s of data blocks, i.e. types implementing [AsBytes], and decides on
/// the records parsed from them, forwarding the errors of the stream. It is driven as
/// [NdjsonStream] is. See [from_fallible_stream] and [from_fallible_stream_with_config].
pub struct FallibleNdjsonStream<T, S> {
    state: DriverState<T>,
    bytes_stream: S,
}

impl<T, S> FallibleNdjsonStream<T, S> {
    /// The driver's decision state.
    pub closed spec fn state(&self) -> DriverState<T> {
        self.state
    }

    /// The wrapped stream of data block results.
    pub closed spec fn upstream(&self) -> S {
        self.bytes_stream
    }

    /// Creates a new fallible NDJSON stream wrapping the given `bytes_stream` with the default
    /// [NdjsonConfig].
    pub fn new(bytes_stream: S) -> (r: FallibleNdjsonStream<T, S>)
        ensures
            r.state().wf(),
            !r.state().is_exhausted(),
            r.state().engine().config() == NdjsonConfig::default_config(),
            r.state().engine().rest() == Seq::<u8>::empty(),
            r.state().engine().queued() == Seq::<Seq<u8>>::empty(),
            r.upstream() == bytes_stream,
    {
        FallibleNdjsonStream::with_config(bytes_stream, NdjsonConfig::default())
    }

    /// Creates a new fallible NDJSON stream wrapping the given `bytes_stream` with the given
    /// [NdjsonConfig] to control its behavior.
    pub fn with_config(bytes_stream: S, config: NdjsonConfig) -> (r: FallibleNdjsonStream<T, S>)
        ensures
            r.state().wf(),
            !r.state().is_exhausted(),
            r.state().engine().config() == config,
            r.state().engine().rest() == Seq::<u8>::empty(),
            r.state().engine().queued() == Seq::<Seq<u8>>::empty(),
            r.upstream() == bytes_stream,
    {
        FallibleNdjsonStream { state: DriverState::with_config(config), bytes_stream }
    }

    /// The wrapped stream, to be polled for one more data block result.
    pub fn bytes_stream_mut(&mut self) -> (r: &mut S)
        ensures
            *r == old(self).upstream(),
            final(self).upstream() == *final(r),
            final(self).state() == old(self).state(),
    {
        &mut self.bytes_stream
    }

    /// The first half of a poll, made before the stream is polled: the oldest queued outcome,
    /// else the end once the stream has ended, else [Step::Pull].
    pub fn poll_queued<E>(&mut self) -> (r: Step<FallibleNdjsonResult<T, E>>)
        requires
            old(self).state().wf(),
        ensures
            r == fallible_step::<T, E>(queued_step(old(self).state())),
            polled(old(self).state(), final(self).state()),
            final(self).upstream() == old(self).upstream(),
    {
        into_fallible_step(self.state.poll_queued())
    }
}

impl<T: DeserializeOwned, S> FallibleNdjsonStream<T, S> {
    /// The second half of a poll: handles the item that the stream delivered, as
    /// [DriverState::accept_fallible] does.
    pub fn accept<B: AsBytes, E>(&mut self, item: Option<Result<B, E>>) -> (r: Step<
        FallibleNdjsonResult<T, E>,
    >)
        requires
            old(self).state().wf(),
            !old(self).state().is_exhausted(),
            old(self).state().engine().queued().len() == 0,
        ensures
            accepted_fallible(old(self).state(), item, final(self).state(), r),
            final(self).upstream() == old(self).upstream(),
    {
        self.state.accept_fallible(item)
    }
}

/// Wraps the given stream of data blocks in an [NdjsonStream] with the default [NdjsonConfig].
pub fn from_stream<T, S>(bytes_stream: S) -> (r: NdjsonStream<T, S>)
    ensures
        r.state().engine().config() == NdjsonConfig::default_config(),
        r.state().engine().queued() == Seq::<Seq<u8>>::empty(),
        !r.state().is_exhausted(),
        r.upstream() == bytes_stream,
{
    NdjsonStream::new(bytes_stream)
}

/// Wraps the given stream of data blocks in an [NdjsonStream] with the given [NdjsonConfig].
pub fn from_stream_with_config<T, S>(bytes_stream: S, config: NdjsonConfig) -> (r: NdjsonStream<
    T,
    S,
>)
    ensures
        r.state().engine().config() == config,
        r.state().engine().queued() == Seq::<Seq<u8>>::empty(),
        !r.state().is_exhausted(),
        r.upstream() == bytes_stream,
{
    NdjsonStream::with_config(bytes_stream, config)
}

/// Wraps the given stream of data block results in a [FallibleNdjsonStream] with the default
/// [NdjsonConfig].
pub fn from_fallible_stream<T, S>(bytes_stream: S) -> (r: FallibleNdjsonStream<T, S>)
    ensures
        r.state().engine().config() == NdjsonConfig::default_config(),
        r.state().engine().queued() == Seq::<Seq<u8>>::empty(),
        !r.state().is_exhausted(),
        r.upstream() == bytes_stream,
{
    FallibleNdjsonStream::new(bytes_stream)
}

/// Wraps the given stream of data block results in a [FallibleNdjsonStream] with the given
/// [NdjsonConfig].
pub fn from_fallible_stream_with_config<T, S>(bytes_stream: S, config: NdjsonConfig) -> (r:
    FallibleNdjsonStream<T, S>)
    ensures
        r.state().engine().config() == config,
        r.state().engine().queued() == Seq::<Seq<u8>>::empty(),
        !r.state().is_exhausted(),
        r.upstream() == bytes_stream,
{
    FallibleNdjsonStream::with_config(bytes_stream, config)
}

} // verus!
