//! The low-level NDJSON parsing logic in the form of the [NdjsonEngine]. Usually a higher-level
//! interface such as the drivers is used instead.

use vstd::prelude::*;
use vstd::slice::slice_subrange;

use std::collections::VecDeque;

use serde::de::DeserializeOwned;

use crate::bytes::AsBytes;
use crate::config::{EmptyLineHandling, NdjsonConfig};
use crate::json::decode_json;
use crate::lines::{
    lemma_no_newline, lemma_one_line, lemma_rest_has_no_newline, lemma_split, lines_kept,
    no_newline, rest_handling, rest_of, rest_record, skips, CARRIAGE_RETURN, NEW_LINE,
};
use crate::text::{is_blank, utf8_text};

verus! {

/// The index of the first occurrence of `search` in `data`, if any.
fn index_of(data: &[u8], search: u8) -> (r: Option<usize>)
    ensures
        match r {
            Some(i) => i < data@.len() && data@[i as int] == search && forall|j: int|
                0 <= j < i ==> data@[j] != search,
            None => forall|j: int| 0 <= j < data@.len() ==> data@[j] != search,
        },
{
    let mut i: usize = 0;
    while i < data.len()
        invariant
            i <= data@.len(),
            forall|j: int| 0 <= j < i ==> data@[j] != search,
        decreases data@.len() - i,
    {
        if data[i] == search {
            return Some(i);
        }
        i = i + 1;
    }
    None
}

/// Decodes one line candidate unless the policy `empty_line_handling` skips it.
fn parse_line<T: DeserializeOwned>(bytes: &[u8], empty_line_handling: EmptyLineHandling) -> (r:
    Option<serde_json::Result<T>>)
    ensures
        r is None <==> skips(empty_line_handling, bytes@),
{
    let should_ignore = match empty_line_handling {
        EmptyLineHandling::ParseAlways => false,
        EmptyLineHandling::IgnoreEmpty => {
            assert(bytes@.len() == 1 ==> (bytes@ =~= seq![bytes@[0]]));
            bytes.len() == 0 || (bytes.len() == 1 && bytes[0] == CARRIAGE_RETURN)
        },
        EmptyLineHandling::IgnoreBlank => match utf8_text(bytes) {
            Some(text) => is_blank(text),
            None => false,
        },
    };
    if should_ignore {
        None
    } else {
        Some(decode_json(bytes))
    }
}

/// The low-level engine parsing NDJSON data given as byte chunks into objects of the type
/// parameter `T`. Data is supplied in chunks and parsed objects can subsequently be read from a
/// queue.
///
/// Its model: the rest (the bytes after the last newline seen, never holding a newline), the
/// line candidates whose decode outcomes wait in the queue, and the config.
pub struct NdjsonEngine<T> {
    in_queue: Vec<u8>,
    out_queue: VecDeque<serde_json::Result<T>>,
    lines: Ghost<Seq<Seq<u8>>>,
    config: NdjsonConfig,
}

impl<T> NdjsonEngine<T> {
    /// The bytes after the last newline seen so far.
    pub closed spec fn rest(&self) -> Seq<u8> {
        self.in_queue@
    }

    /// The line candidates whose decode outcomes wait in the queue, oldest first.
    pub closed spec fn queued(&self) -> Seq<Seq<u8>> {
        self.lines@
    }

    /// The decode outcomes waiting in the queue, oldest first; one for each queued line.
    pub closed spec fn outcomes(&self) -> Seq<serde_json::Result<T>> {
        self.out_queue@
    }

    /// The configuration that the engine was created with.
    pub closed spec fn config(&self) -> NdjsonConfig {
        self.config
    }

    /// The engine's invariant: one outcome per queued line, and no newline in the rest.
    pub closed spec fn wf(&self) -> bool {
        &&& self.out_queue@.len() == self.lines@.len()
        &&& no_newline(self.in_queue@)
    }

    /// Creates a new NDJSON engine for objects of the given type parameter with the default
    /// [NdjsonConfig].
    pub fn new() -> (r: NdjsonEngine<T>)
        ensures
            r.wf(),
            r.rest() == Seq::<u8>::empty(),
            r.queued() == Seq::<Seq<u8>>::empty(),
            r.outcomes() == Seq::<serde_json::Result<T>>::empty(),
            r.config().handling() == EmptyLineHandling::ParseAlways,
            !r.config().parses_rest(),
    {
        NdjsonEngine::with_config(NdjsonConfig::default())
    }

    /// Creates a new NDJSON engine for objects of the given type parameter with the given
    /// [NdjsonConfig] to control its behavior.
    pub fn with_config(config: NdjsonConfig) -> (r: NdjsonEngine<T>)
        ensures
            r.wf(),
            r.rest() == Seq::<u8>::empty(),
            r.queued() == Seq::<Seq<u8>>::empty(),
            r.outcomes() == Seq::<serde_json::Result<T>>::empty(),
            r.config() == config,
    {
        NdjsonEngine {
            in_queue: Vec::new(),
            out_queue: VecDeque::new(),
            lines: Ghost(Seq::empty()),
            config,
        }
    }

    /// Reads the next element from the queue of parsed items, if sufficient NDJSON data has been
    /// supplied previously via [NdjsonEngine::input], that is, a newline character has been
    /// observed. If the line is not valid JSON of the target type, the parse error is returned.
    /// If no element is available in the queue, `None` is returned.
    pub fn pop(&mut self) -> (r: Option<serde_json::Result<T>>)
        requires
            old(self).wf(),
        ensures
            final(self).wf(),
            r == if old(self).queued().len() > 0 {
                Some(old(self).outcomes()[0])
            } else {
                None
            },
            final(self).queued() == if old(self).queued().len() > 0 {
                old(self).queued().drop_first()
            } else {
                old(self).queued()
            },
            final(self).outcomes() == if old(self).queued().len() > 0 {
                old(self).outcomes().drop_first()
            } else {
                old(self).outcomes()
            },
            final(self).rest() == old(self).rest(),
            final(self).config() == old(self).config(),
    {
        let r = self.out_queue.pop_front();
        if r.is_some() {
            self.lines = Ghost(self.lines@.drop_first());
        }
        r
    }

    /// The number of bytes held as the rest after the last newline.
    pub fn rest_len(&self) -> (r: usize)
        ensures
            r == self.rest().len(),
    {
        self.in_queue.len()
    }

    /// The number of outcomes waiting in the queue.
    pub fn queued_len(&self) -> (r: usize)
        requires
            self.wf(),
        ensures
            r == self.queued().len(),
            r == self.outcomes().len(),
    {
        self.out_queue.len()
    }
}

impl<T: DeserializeOwned> NdjsonEngine<T> {
    /// Parses the given data as NDJSON. Every line that the data completes and the empty-line
    /// policy keeps is decoded and its outcome queued; the bytes after the last newline are kept
    /// as the rest, to be prepended to the data of the next call.
    pub fn input<B: AsBytes>(&mut self, data: B)
        requires
            old(self).wf(),
        ensures
            final(self).wf(),
            final(self).queued() == old(self).queued() + lines_kept(
                old(self).rest() + data.byte_view(),
                old(self).config().handling(),
            ),
            final(self).rest() == rest_of(old(self).rest() + data.byte_view()),
            final(self).outcomes().subrange(0, old(self).outcomes().len() as int) == old(
                self,
            ).outcomes(),
            final(self).config() == old(self).config(),
    {
        let chunk = data.as_bytes();
        let handling = self.config.empty_line_handling();
        let ghost rest0 = self.in_queue@;
        let ghost lines0 = self.lines@;
        proof {
            lemma_no_newline(rest0, handling);
            assert(rest0 + chunk@.take(0) =~= rest0);
        }
        let mut start: usize = 0;
        loop
            invariant
                start <= chunk@.len(),
                chunk@ == data.byte_view(),
                rest0 == old(self).in_queue@,
                lines0 == old(self).lines@,
                self.out_queue@.len() >= old(self).out_queue@.len(),
                self.out_queue@.subrange(0, old(self).out_queue@.len() as int) == old(
                    self,
                ).out_queue@,
                handling == self.config.handling(),
                self.config == old(self).config,
                self.out_queue@.len() == self.lines@.len(),
                self.in_queue@ == rest_of(rest0 + chunk@.take(start as int)),
                self.lines@ == lines0 + lines_kept(rest0 + chunk@.take(start as int), handling),
            decreases chunk@.len() - start,
        {
            let remaining = slice_subrange(chunk, start, chunk.len());
            match index_of(remaining, NEW_LINE) {
                None => {
                    let ghost seen = rest0 + chunk@.take(start as int);
                    let ghost tail = chunk@.subrange(start as int, chunk@.len() as int);
                    proof {
                        lemma_split(seen, tail, handling);
                        lemma_rest_has_no_newline(seen);
                        assert(no_newline(rest_of(seen) + tail));
                        lemma_no_newline(rest_of(seen) + tail, handling);
                        assert(seen + tail =~= rest0 + chunk@);
                    }
                    self.in_queue.extend_from_slice(remaining);
                    proof {
                        assert(self.in_queue@ =~= rest_of(seen) + tail);
                        assert(self.lines@ + Seq::<Seq<u8>>::empty() =~= self.lines@);
                        assert(lines0 + lines_kept(seen, handling) + Seq::<Seq<u8>>::empty()
                            =~= lines0 + lines_kept(seen, handling));
                        lemma_rest_has_no_newline(rest0 + chunk@);
                    }
                    return ;
                },
                Some(k) => {
                    let ghost seen = rest0 + chunk@.take(start as int);
                    let piece = slice_subrange(chunk, start, start + k);
                    let ghost line = self.in_queue@ + piece@;
                    let outcome = if self.in_queue.len() == 0 {
                        proof {
                            assert(line =~= piece@);
                        }
                        parse_line(piece, handling)
                    } else {
                        self.in_queue.extend_from_slice(piece);
                        proof {
                            assert(self.in_queue@ =~= line);
                        }
                        parse_line(self.in_queue.as_slice(), handling)
                    };
                    proof {
                        lemma_rest_has_no_newline(seen);
                        assert(no_newline(piece@));
                        assert(no_newline(line));
                        lemma_split(seen, piece@.push(NEW_LINE), handling);
                        lemma_one_line(Seq::<u8>::empty(), line, handling);
                        assert(Seq::<u8>::empty() + line.push(NEW_LINE) =~= line.push(NEW_LINE));
                        assert(rest_of(seen) + piece@.push(NEW_LINE) =~= line.push(NEW_LINE));
                        lemma_no_newline(Seq::<u8>::empty(), handling);
                        assert(chunk@.take(start + k + 1) =~= chunk@.take(start as int) + piece@.push(
                            NEW_LINE,
                        ));
                        assert(seen + piece@.push(NEW_LINE) =~= rest0 + chunk@.take(start + k + 1));
                    }
                    if let Some(item) = outcome {
                        self.out_queue.push_back(item);
                        proof {
                            assert(self.out_queue@.subrange(0, old(self).out_queue@.len() as int)
                                =~= old(self).out_queue@);
                            self.lines@ = self.lines@.push(line);
                            assert(Seq::<Seq<u8>>::empty().push(line) =~= seq![line]);
                            assert(lines_kept(seen, handling) + seq![line] =~= lines_kept(
                                seen,
                                handling,
                            ).push(line));
                        }
                    } else {
                        proof {
                            assert(lines_kept(seen, handling) + Seq::<Seq<u8>>::empty()
                                =~= lines_kept(seen, handling));
                        }
                    }
                    self.in_queue.clear();
                    start = start + k + 1;
                },
            }
        }
    }

    /// Parses the rest left over from previous calls to [NdjsonEngine::input], i.e. the data
    /// after the last newline, if the config enables rest handling and the policy, with
    /// `ParseAlways` relaxed to `IgnoreEmpty`, keeps it. In any case the rest is discarded, so
    /// this function is idempotent.
    pub fn finalize(&mut self)
        requires
            old(self).wf(),
        ensures
            final(self).wf(),
            final(self).queued() == old(self).queued() + rest_record(
                old(self).config(),
                old(self).rest(),
            ),
            final(self).rest() == Seq::<u8>::empty(),
            final(self).outcomes().subrange(0, old(self).outcomes().len() as int) == old(
                self,
            ).outcomes(),
            final(self).config() == old(self).config(),
    {
        if self.config.parse_rest() {
            let empty_line_handling = match self.config.empty_line_handling() {
                EmptyLineHandling::ParseAlways => EmptyLineHandling::IgnoreEmpty,
                empty_line_handling => empty_line_handling,
            };
            assert(empty_line_handling == rest_handling(self.config.handling()));
            if let Some(item) = parse_line(self.in_queue.as_slice(), empty_line_handling) {
                self.out_queue.push_back(item);
                proof {
                    self.lines@ = self.lines@.push(self.in_queue@);
                }
            }
        }
        self.in_queue.clear();
        proof {
            assert(self.out_queue@.subrange(0, old(self).out_queue@.len() as int)
                =~= old(self).out_queue@);
            assert(self.lines@ =~= old(self).lines@ + rest_record(
                old(self).config,
                old(self).in_queue@,
            ));
        }
    }
}

impl<T> Default for NdjsonEngine<T> {
    fn default() -> (r: NdjsonEngine<T>)
        ensures
            r.wf(),
            r.rest() == Seq::<u8>::empty(),
            r.queued() == Seq::<Seq<u8>>::empty(),
            r.outcomes() == Seq::<serde_json::Result<T>>::empty(),
            r.config().handling() == EmptyLineHandling::ParseAlways,
            !r.config().parses_rest(),
    {
        NdjsonEngine::new()
    }
}

} // verus!
