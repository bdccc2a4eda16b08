use serde::de::Error as _;
use serde::{Deserialize, Deserializer};

use ndjson_stream::config::{EmptyLineHandling, NdjsonConfig};
use ndjson_stream::driver::{FallibleNdjsonIter, Step};
use ndjson_stream::engine::NdjsonEngine;
use ndjson_stream::fallible::{FallibleNdjsonError, FallibleNdjsonResult};
use ndjson_stream::from_fallible_iter;

#[derive(Debug, Eq, PartialEq)]
struct Record {
    key: u64,
    value: u64,
}

impl<'de> Deserialize<'de> for Record {
    fn deserialize<D: Deserializer<'de>>(deserializer: D) -> Result<Record, D::Error> {
        let json = serde_json::Value::deserialize(deserializer)?;
        let field = |name: &str| {
            json.get(name)
                .and_then(serde_json::Value::as_u64)
                .ok_or_else(|| D::Error::custom(format!("missing or invalid field `{}`", name)))
        };
        Ok(Record { key: field("key")?, value: field("value")? })
    }
}

/// Each outcome as the decoded pair, or `None` for a parse error.
fn drain<T>(engine: &mut NdjsonEngine<T>, convert: impl Fn(T) -> (u64, u64)) -> Vec<Option<(u64, u64)>> {
    let mut out = Vec::new();
    while let Some(outcome) = engine.pop() {
        out.push(outcome.ok().map(&convert));
    }
    out
}

fn pair(record: Record) -> (u64, u64) {
    (record.key, record.value)
}

fn engine_with(handling: EmptyLineHandling, parse_rest: bool) -> NdjsonEngine<Record> {
    NdjsonEngine::with_config(
        NdjsonConfig::default().with_empty_line_handling(handling).with_parse_rest(parse_rest),
    )
}

const MIXED_LINES: &str = "{\"key\":1,\"value\":2}\n\n{\"key\":3}\r\n{\"key\":5,\"value\":6}\n{\"k";

#[test]
fn chunking_does_not_change_outcomes() {
    let bytes = MIXED_LINES.as_bytes();
    let mut whole = engine_with(EmptyLineHandling::ParseAlways, false);
    whole.input(bytes);
    let expected = drain(&mut whole, pair);
    assert_eq!(expected, vec![Some((1, 2)), None, None, Some((5, 6))]);

    let mut per_byte = engine_with(EmptyLineHandling::ParseAlways, false);
    for byte in bytes {
        per_byte.input(vec![*byte]);
    }
    assert_eq!(drain(&mut per_byte, pair), expected);
    assert_eq!(per_byte.rest_len(), whole.rest_len());

    for cut in 0..=bytes.len() {
        let mut split = engine_with(EmptyLineHandling::ParseAlways, false);
        split.input(&bytes[..cut]);
        split.input(&bytes[cut..]);
        assert_eq!(drain(&mut split, pair), expected);
        assert_eq!(split.rest_len(), 3);
    }
}

#[test]
fn finalize_twice_queues_what_finalize_once_queues() {
    let mut once = engine_with(EmptyLineHandling::ParseAlways, true);
    once.input("{\"key\":7,\"value\":8}\n{\"key\":9,\"value\":10}");
    once.finalize();
    let mut twice = engine_with(EmptyLineHandling::ParseAlways, true);
    twice.input("{\"key\":7,\"value\":8}\n{\"key\":9,\"value\":10}");
    twice.finalize();
    twice.finalize();

    assert_eq!(drain(&mut once, pair), vec![Some((7, 8)), Some((9, 10))]);
    assert_eq!(drain(&mut twice, pair), vec![Some((7, 8)), Some((9, 10))]);
    assert_eq!(twice.rest_len(), 0);
}

#[test]
fn carriage_return_line_depends_on_policy() {
    let mut ignoring = engine_with(EmptyLineHandling::IgnoreEmpty, false);
    ignoring.input("{\"key\":1,\"value\":1}\n\r\n");
    assert_eq!(drain(&mut ignoring, pair), vec![Some((1, 1))]);

    let mut parsing = engine_with(EmptyLineHandling::ParseAlways, false);
    parsing.input("{\"key\":1,\"value\":1}\n\r\n");
    assert_eq!(drain(&mut parsing, pair), vec![Some((1, 1)), None]);
}

#[test]
fn blank_line_depends_on_policy() {
    let mut blank = engine_with(EmptyLineHandling::IgnoreBlank, false);
    blank.input(" \t \n\t\n");
    assert!(drain(&mut blank, pair).is_empty());

    let mut empty = engine_with(EmptyLineHandling::IgnoreEmpty, false);
    empty.input(" \t \n\t\n");
    assert_eq!(drain(&mut empty, pair), vec![None, None]);
}

#[test]
fn ignore_blank_skips_unicode_whitespace_and_decodes_invalid_text() {
    let mut engine = engine_with(EmptyLineHandling::IgnoreBlank, false);
    engine.input("\u{3000}\u{a0}\n".as_bytes());
    engine.input(vec![0x20u8, 0xff, 0x0a]);
    engine.input("\u{3000}x\n".as_bytes());

    assert_eq!(drain(&mut engine, pair), vec![None, None]);
}

#[test]
fn ignore_empty_skips_empty_and_lone_carriage_return_only() {
    let mut engine = engine_with(EmptyLineHandling::IgnoreEmpty, false);
    engine.input("\n\r\n\r\r\n{\"key\":2,\"value\":3}\n");

    assert_eq!(drain(&mut engine, pair), vec![None, Some((2, 3))]);
}

#[test]
fn single_line_yields_one_record() {
    let mut engine: NdjsonEngine<Record> = NdjsonEngine::new();
    engine.input("{\"key\":3,\"value\":4}\n");

    assert_eq!(engine.pop().unwrap().unwrap(), Record { key: 3, value: 4 });
    assert!(engine.pop().is_none());
}

#[test]
fn record_split_over_two_chunks() {
    let mut engine: NdjsonEngine<Record> = NdjsonEngine::new();
    engine.input("{\"key\":42,");
    assert!(engine.pop().is_none());
    engine.input("\"value\":24}\n");

    assert_eq!(engine.pop().unwrap().unwrap(), Record { key: 42, value: 24 });
    assert!(engine.pop().is_none());
}

#[test]
fn missing_field_then_record() {
    let mut engine: NdjsonEngine<Record> = NdjsonEngine::new();
    engine.input("{\"key\":1}\n{\"key\":1,\"value\":1}\n");

    assert!(engine.pop().unwrap().is_err());
    assert_eq!(engine.pop().unwrap().unwrap(), Record { key: 1, value: 1 });
    assert!(engine.pop().is_none());
}

#[test]
fn rest_parsed_only_when_enabled() {
    let mut enabled = engine_with(EmptyLineHandling::ParseAlways, true);
    enabled.input("{\"key\":1,\"value\":2}");
    assert!(enabled.pop().is_none());
    enabled.finalize();
    assert_eq!(drain(&mut enabled, pair), vec![Some((1, 2))]);

    let mut disabled = engine_with(EmptyLineHandling::ParseAlways, false);
    disabled.input("{\"key\":1,\"value\":2}");
    disabled.finalize();
    assert!(disabled.pop().is_none());
    disabled.finalize();
    assert!(disabled.pop().is_none());
}

fn next_result<I>(iter: &mut FallibleNdjsonIter<Record, I>) -> Option<FallibleNdjsonResult<Record, &'static str>>
where
    I: Iterator<Item = Result<&'static str, &'static str>>,
{
    loop {
        if let Step::Ready(result) = iter.step() {
            return result;
        }
    }
}

#[test]
fn partial_line_survives_input_error() {
    let chunks = vec![Ok("{\"key\":42,\"val"), Err("broken"), Ok("ue\":24}\n")];
    let mut iter = from_fallible_iter::<Record, _>(chunks.into_iter());

    assert!(matches!(next_result(&mut iter), Some(Err(FallibleNdjsonError::InputError("broken")))));
    assert!(matches!(next_result(&mut iter), Some(Ok(Record { key: 42, value: 24 }))));
    assert!(next_result(&mut iter).is_none());
    assert!(next_result(&mut iter).is_none());
}

#[test]
fn step_pulls_only_when_nothing_is_queued() {
    let chunks: Vec<Result<&str, &str>> = vec![Ok("{\"key\":1,\"value\":1}\n{\"key\":2,\"value\":2}\n"), Ok("{\"key\":3,")];
    let mut iter = from_fallible_iter::<Record, _>(chunks.into_iter());

    assert!(matches!(iter.step(), Step::Pull));
    assert!(matches!(iter.step(), Step::Ready(Some(Ok(Record { key: 1, value: 1 })))));
    assert!(matches!(iter.step(), Step::Ready(Some(Ok(Record { key: 2, value: 2 })))));
    assert!(matches!(iter.step(), Step::Pull));
    assert!(matches!(iter.step(), Step::Ready(None)));
    assert!(matches!(iter.step(), Step::Ready(None)));
}

#[test]
fn config_builders_keep_the_other_setting() {
    let config = NdjsonConfig::default()
        .with_parse_rest(true)
        .with_empty_line_handling(EmptyLineHandling::IgnoreBlank);
    assert_eq!(
        config,
        NdjsonConfig::default()
            .with_empty_line_handling(EmptyLineHandling::IgnoreBlank)
            .with_parse_rest(true)
    );
    assert_ne!(config, NdjsonConfig::default());
    assert_eq!(config.with_parse_rest(false).with_empty_line_handling(EmptyLineHandling::ParseAlways), NdjsonConfig::default());
    assert_eq!(EmptyLineHandling::default(), EmptyLineHandling::ParseAlways);
}

#[test]
fn fallible_error_variants_are_distinguished() {
    let chunks = vec![Ok("oops\n"), Err("down")];
    let mut iter = from_fallible_iter::<Record, _>(chunks.into_iter());

    assert!(matches!(next_result(&mut iter), Some(Err(FallibleNdjsonError::JsonError(_)))));
    assert!(matches!(next_result(&mut iter), Some(Err(FallibleNdjsonError::InputError("down")))));
    assert!(next_result(&mut iter).is_none());
}
