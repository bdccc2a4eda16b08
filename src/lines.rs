//! The mathematical model of NDJSON line splitting: which line candidates a byte stream
//! completes, which of them the empty-line policy keeps, and which bytes remain as the rest.

use vstd::prelude::*;
use vstd::utf8::{
    decode_utf8, is_leading_byte_width_1, pop_first_scalar, valid_first_scalar, valid_utf8,
};

use crate::config::{EmptyLineHandling, NdjsonConfig};
use crate::text::{all_whitespace, whitespace};

verus! {

/// The byte that terminates a line.
pub const NEW_LINE: u8 = 0x0a;

/// The byte of a carriage return, which precedes the newline in `\r\n` line breaks.
pub const CARRIAGE_RETURN: u8 = 0x0d;

/// Whether `s` holds no newline byte.
pub open spec fn no_newline(s: Seq<u8>) -> bool {
    forall|i: int| 0 <= i < s.len() ==> #[trigger] s[i] != NEW_LINE
}

/// Whether a line candidate is skipped, i.e. never handed to the decoder, under the policy `h`.
pub open spec fn skips(h: EmptyLineHandling, line: Seq<u8>) -> bool {
    match h {
        EmptyLineHandling::ParseAlways => false,
        EmptyLineHandling::IgnoreEmpty => line.len() == 0 || line == seq![CARRIAGE_RETURN],
        EmptyLineHandling::IgnoreBlank => valid_utf8(line) && all_whitespace(decode_utf8(line)),
    }
}

/// The policy that decides on the rest at the end of the input: `ParseAlways` is relaxed to
/// `IgnoreEmpty`, so that an input ending in a newline yields no spurious record.
pub open spec fn rest_handling(h: EmptyLineHandling) -> EmptyLineHandling {
    match h {
        EmptyLineHandling::ParseAlways => EmptyLineHandling::IgnoreEmpty,
        _ => h,
    }
}

/// The bytes of `s` after its last newline (all of `s` if it has none).
pub open spec fn rest_of(s: Seq<u8>) -> Seq<u8>
    decreases s.len(),
{
    if s.len() == 0 {
        s
    } else if s.last() == NEW_LINE {
        Seq::empty()
    } else {
        rest_of(s.drop_last()).push(s.last())
    }
}

/// The line candidates that the newlines of `s` complete and that the policy `h` does not skip,
/// in the order of their newlines. A line candidate excludes its newline.
pub open spec fn lines_kept(s: Seq<u8>, h: EmptyLineHandling) -> Seq<Seq<u8>>
    decreases s.len(),
{
    if s.len() == 0 {
        Seq::empty()
    } else if s.last() == NEW_LINE {
        let line = rest_of(s.drop_last());
        if skips(h, line) {
            lines_kept(s.drop_last(), h)
        } else {
            lines_kept(s.drop_last(), h).push(line)
        }
    } else {
        lines_kept(s.drop_last(), h)
    }
}

/// What finalizing queues for the rest `rest` under `config`: the rest as one last line if rest
/// handling is on and the relaxed policy keeps it, else nothing.
pub open spec fn rest_record(config: NdjsonConfig, rest: Seq<u8>) -> Seq<Seq<u8>> {
    if config.parses_rest() && !skips(rest_handling(config.handling()), rest) {
        seq![rest]
    } else {
        Seq::empty()
    }
}

/// A sequence without newlines is its own rest and completes no line.
pub proof fn lemma_no_newline(s: Seq<u8>, h: EmptyLineHandling)
    requires
        no_newline(s),
    ensures
        rest_of(s) == s,
        lines_kept(s, h) == Seq::<Seq<u8>>::empty(),
    decreases s.len(),
{
    if s.len() > 0 {
        assert(s.last() == s[s.len() - 1]);
        lemma_no_newline(s.drop_last(), h);
        assert(s.drop_last().push(s.last()) =~= s);
    }
}

/// The rest never holds a newline.
pub proof fn lemma_rest_has_no_newline(s: Seq<u8>)
    ensures
        no_newline(rest_of(s)),
    decreases s.len(),
{
    if s.len() > 0 && s.last() != NEW_LINE {
        lemma_rest_has_no_newline(s.drop_last());
        let r = rest_of(s.drop_last()).push(s.last());
        assert forall|i: int| 0 <= i < r.len() implies #[trigger] r[i] != NEW_LINE by {
            if i < r.len() - 1 {
                assert(r[i] == rest_of(s.drop_last())[i]);
            }
        }
    }
}

/// Splitting a byte sequence anywhere: the lines of `a + b` are those of `a` followed by those
/// that `b` completes after the rest of `a`, and the rest is the rest of that continuation.
pub proof fn lemma_split(a: Seq<u8>, b: Seq<u8>, h: EmptyLineHandling)
    ensures
        lines_kept(a + b, h) == lines_kept(a, h) + lines_kept(rest_of(a) + b, h),
        rest_of(a + b) == rest_of(rest_of(a) + b),
    decreases b.len(),
{
    if b.len() == 0 {
        assert(a + b =~= a);
        assert(rest_of(a) + b =~= rest_of(a));
        lemma_rest_has_no_newline(a);
        lemma_no_newline(rest_of(a), h);
        assert(lines_kept(a, h) + Seq::<Seq<u8>>::empty() =~= lines_kept(a, h));
    } else {
        let b0 = b.drop_last();
        lemma_split(a, b0, h);
        assert((a + b).drop_last() =~= a + b0);
        assert((rest_of(a) + b).drop_last() =~= rest_of(a) + b0);
        assert((a + b).last() == b.last());
        assert((rest_of(a) + b).last() == b.last());
        let x = lines_kept(a, h);
        let y = lines_kept(rest_of(a) + b0, h);
        if b.last() == NEW_LINE {
            let line = rest_of(a + b0);
            if !skips(h, line) {
                assert((x + y).push(line) =~= x + y.push(line));
            }
        }
    }
}

/// A line candidate `w` completed after a line boundary is queued exactly when the policy
/// keeps it.
pub proof fn lemma_one_line(s: Seq<u8>, w: Seq<u8>, h: EmptyLineHandling)
    requires
        rest_of(s) == Seq::<u8>::empty(),
        no_newline(w),
    ensures
        lines_kept(s + w.push(NEW_LINE), h) == if skips(h, w) {
            lines_kept(s, h)
        } else {
            lines_kept(s, h).push(w)
        },
        rest_of(s + w.push(NEW_LINE)) == Seq::<u8>::empty(),
{
    lemma_split(s, w.push(NEW_LINE), h);
    assert(rest_of(s) + w.push(NEW_LINE) =~= w.push(NEW_LINE));
    assert(w.push(NEW_LINE).drop_last() =~= w);
    lemma_no_newline(w, h);
    lemma_no_newline(Seq::<u8>::empty(), h);
    if skips(h, w) {
        assert(lines_kept(s, h) + Seq::<Seq<u8>>::empty() =~= lines_kept(s, h));
    } else {
        assert(Seq::<Seq<u8>>::empty().push(w) =~= seq![w]);
        assert(lines_kept(s, h) + seq![w] =~= lines_kept(s, h).push(w));
    }
}

/// The bytes of `chunks` in order, as one sequence.
pub open spec fn joined(chunks: Seq<Seq<u8>>) -> Seq<u8>
    decreases chunks.len(),
{
    if chunks.len() == 0 {
        Seq::empty()
    } else {
        joined(chunks.drop_last()) + chunks.last()
    }
}

/// The lines queued and the rest left when `chunks` are fed one at a time to an engine whose
/// rest is `rest`, as [NdjsonEngine::input](crate::engine::NdjsonEngine::input) states for each
/// call.
pub open spec fn fed_in_chunks(rest: Seq<u8>, chunks: Seq<Seq<u8>>, h: EmptyLineHandling) -> (
    Seq<Seq<u8>>,
    Seq<u8>,
)
    decreases chunks.len(),
{
    if chunks.len() == 0 {
        (Seq::empty(), rest)
    } else {
        let (lines, r) = fed_in_chunks(rest, chunks.drop_last(), h);
        (lines + lines_kept(r + chunks.last(), h), rest_of(r + chunks.last()))
    }
}

/// How the input is cut into chunks does not matter: feeding the chunks one at a time queues the
/// same lines, in the same order, and leaves the same rest as feeding all their bytes as a
/// single chunk.
pub proof fn lemma_chunking_is_irrelevant(rest: Seq<u8>, chunks: Seq<Seq<u8>>, h: EmptyLineHandling)
    requires
        no_newline(rest),
    ensures
        fed_in_chunks(rest, chunks, h) == fed_in_chunks(rest, seq![joined(chunks)], h),
        fed_in_chunks(rest, chunks, h) == (
            lines_kept(rest + joined(chunks), h),
            rest_of(rest + joined(chunks)),
        ),
    decreases chunks.len(),
{
    let whole = seq![joined(chunks)];
    assert(whole.drop_last() =~= Seq::<Seq<u8>>::empty());
    assert(whole.last() == joined(chunks));
    assert(fed_in_chunks(rest, whole.drop_last(), h) == (Seq::<Seq<u8>>::empty(), rest));
    lemma_no_newline(rest, h);
    assert(Seq::<Seq<u8>>::empty() + lines_kept(rest + joined(chunks), h) =~= lines_kept(
        rest + joined(chunks),
        h,
    ));
    if chunks.len() == 0 {
        assert(rest + joined(chunks) =~= rest);
    } else {
        let init = chunks.drop_last();
        lemma_chunking_is_irrelevant(rest, init, h);
        lemma_split(rest + joined(init), chunks.last(), h);
        assert(rest + joined(init) + chunks.last() =~= rest + joined(chunks));
    }
}

/// Finalizing is idempotent: the first call leaves an empty rest, and finalizing an empty rest
/// queues nothing, whatever the config; so a second call queues what one call queued.
pub proof fn lemma_finalize_is_idempotent(
    config: NdjsonConfig,
    queued: Seq<Seq<u8>>,
    rest: Seq<u8>,
)
    ensures
        queued + rest_record(config, rest) + rest_record(config, Seq::empty()) == queued
            + rest_record(config, rest),
{
    let empty = Seq::<u8>::empty();
    assert(valid_utf8(empty));
    assert(decode_utf8(empty) =~= Seq::<char>::empty());
    assert(skips(rest_handling(config.handling()), empty));
    assert(queued + rest_record(config, rest) + Seq::<Seq<u8>>::empty() =~= queued + rest_record(
        config,
        rest,
    ));
}

/// A line that holds only a carriage return (from a `\r\n` line break) is skipped under
/// `IgnoreEmpty`, whereas `ParseAlways` hands it to the decoder.
pub proof fn lemma_carriage_return_line(s: Seq<u8>)
    requires
        rest_of(s) == Seq::<u8>::empty(),
    ensures
        lines_kept(s + seq![CARRIAGE_RETURN, NEW_LINE], EmptyLineHandling::IgnoreEmpty)
            == lines_kept(s, EmptyLineHandling::IgnoreEmpty),
        lines_kept(s + seq![CARRIAGE_RETURN, NEW_LINE], EmptyLineHandling::ParseAlways)
            == lines_kept(s, EmptyLineHandling::ParseAlways).push(seq![CARRIAGE_RETURN]),
{
    let w = seq![CARRIAGE_RETURN];
    assert(w.push(NEW_LINE) =~= seq![CARRIAGE_RETURN, NEW_LINE]);
    lemma_one_line(s, w, EmptyLineHandling::IgnoreEmpty);
    lemma_one_line(s, w, EmptyLineHandling::ParseAlways);
}

/// Whether `w` holds only spaces and tabs.
pub open spec fn spaces_and_tabs(w: Seq<u8>) -> bool {
    forall|i: int| 0 <= i < w.len() ==> #[trigger] w[i] == 0x20u8 || w[i] == 0x09u8
}

/// Spaces and tabs are valid UTF-8 and decode to whitespace characters.
proof fn lemma_spaces_and_tabs_are_blank(w: Seq<u8>)
    requires
        spaces_and_tabs(w),
    ensures
        valid_utf8(w),
        all_whitespace(decode_utf8(w)),
    decreases w.len(),
{
    if w.len() > 0 {
        let b = w[0];
        assert(b == 0x20u8 || b == 0x09u8);
        assert(b & 0x7f == b) by (bit_vector)
            requires
                b == 0x20u8 || b == 0x09u8,
        ;
        assert(is_leading_byte_width_1(b));
        assert(valid_first_scalar(w));
        let tail = pop_first_scalar(w);
        assert(tail =~= w.subrange(1, w.len() as int));
        lemma_spaces_and_tabs_are_blank(tail);
        let c = (b as u32) as char;
        assert(c as u32 == b as u32);
        assert(whitespace(c));
        assert(decode_utf8(w) =~= seq![c] + decode_utf8(tail));
    }
}

/// A non-empty line of spaces and tabs is skipped under `IgnoreBlank`, whereas `IgnoreEmpty`
/// hands it to the decoder, since it is not empty.
pub proof fn lemma_blank_line(s: Seq<u8>, w: Seq<u8>)
    requires
        rest_of(s) == Seq::<u8>::empty(),
        w.len() > 0,
        spaces_and_tabs(w),
    ensures
        lines_kept(s + w.push(NEW_LINE), EmptyLineHandling::IgnoreBlank) == lines_kept(
            s,
            EmptyLineHandling::IgnoreBlank,
        ),
        lines_kept(s + w.push(NEW_LINE), EmptyLineHandling::IgnoreEmpty) == lines_kept(
            s,
            EmptyLineHandling::IgnoreEmpty,
        ).push(w),
{
    assert(no_newline(w));
    lemma_spaces_and_tabs_are_blank(w);
    lemma_one_line(s, w, EmptyLineHandling::IgnoreBlank);
    assert(w != seq![CARRIAGE_RETURN]) by {
        if w == seq![CARRIAGE_RETURN] {
            assert(w[0] == CARRIAGE_RETURN);
        }
    }
    lemma_one_line(s, w, EmptyLineHandling::IgnoreEmpty);
}

} // verus!
