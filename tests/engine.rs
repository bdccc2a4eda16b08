use std::borrow::Cow;
use std::rc::Rc;
use std::sync::Arc;

use serde::de::Error as _;
use serde::{Deserialize, Deserializer};

use ndjson_stream::config::{EmptyLineHandling, NdjsonConfig};
use ndjson_stream::engine::NdjsonEngine;

#[derive(Debug, Eq, PartialEq)]
struct TestStruct {
    key: u64,
    value: u64,
}

impl<'de> Deserialize<'de> for TestStruct {
    fn deserialize<D: Deserializer<'de>>(deserializer: D) -> Result<TestStruct, D::Error> {
        let json = serde_json::Value::deserialize(deserializer)?;
        let field = |name: &str| {
            json.get(name)
                .and_then(serde_json::Value::as_u64)
                .ok_or_else(|| D::Error::custom(format!("missing or invalid field `{}`", name)))
        };
        Ok(TestStruct { key: field("key")?, value: field("value")? })
    }
}

fn collect_output(mut engine: NdjsonEngine<TestStruct>) -> Vec<serde_json::Result<TestStruct>> {
    let mut output = Vec::new();
    while let Some(outcome) = engine.pop() {
        output.push(outcome);
    }
    output
}

fn assert_values(output: &[serde_json::Result<TestStruct>], expected: &[(u64, u64)]) {
    assert_eq!(output.len(), expected.len());
    for (outcome, &(key, value)) in output.iter().zip(expected) {
        assert_eq!(outcome.as_ref().unwrap(), &TestStruct { key, value });
    }
}

fn configured_engine(config: NdjsonConfig) -> NdjsonEngine<TestStruct> {
    NdjsonEngine::with_config(config)
}

fn engine_with_empty_line_handling(handling: EmptyLineHandling) -> NdjsonEngine<TestStruct> {
    configured_engine(NdjsonConfig::default().with_empty_line_handling(handling))
}

#[test]
fn no_input() {
    let engine: NdjsonEngine<TestStruct> = NdjsonEngine::new();

    assert!(collect_output(engine).is_empty());
}

#[test]
fn incomplete_input() {
    let mut engine: NdjsonEngine<TestStruct> = NdjsonEngine::new();

    engine.input("{\"key\":3,\"val");

    assert!(collect_output(engine).is_empty());
}

#[test]
fn single_exact_input() {
    let mut engine: NdjsonEngine<TestStruct> = NdjsonEngine::new();

    engine.input("{\"key\":3,\"value\":4}\n");

    assert_values(&collect_output(engine), &[(3, 4)]);
}

#[test]
fn single_item_split_into_two_inputs() {
    let mut engine: NdjsonEngine<TestStruct> = NdjsonEngine::new();

    engine.input("{\"key\":42,");
    engine.input("\"value\":24}\n");

    assert_values(&collect_output(engine), &[(42, 24)]);
}

#[test]
fn two_items_in_single_input() {
    let mut engine: NdjsonEngine<TestStruct> = NdjsonEngine::new();

    engine.input("{\"key\":1,\"value\":1}\n{\"key\":2,\"value\":2}\n");

    assert_values(&collect_output(engine), &[(1, 1), (2, 2)]);
}

#[test]
fn two_items_in_many_inputs_with_rest() {
    let mut engine: NdjsonEngine<TestStruct> = NdjsonEngine::new();

    engine.input("{\"key\":12,\"v");
    engine.input("alue\":3");
    engine.input("4}\n{\"key");
    engine.input("\":56,\"valu");
    engine.input("e\":78}\n{\"key\":");

    assert_values(&collect_output(engine), &[(12, 34), (56, 78)]);
}

#[test]
fn input_completing_previous_rest_then_multiple_complete_items_and_more_rest() {
    let mut engine: NdjsonEngine<TestStruct> = NdjsonEngine::new();

    engine.input("{\"key\":9,\"value\":");
    engine.input("8}\n{\"key\":7,\"value\":6}\n{\"key\":5,\"value\":4}\n{\"key\":");
    engine.input("3,\"value\":2}\n{");

    assert_values(&collect_output(engine), &[(9, 8), (7, 6), (5, 4), (3, 2)]);
}

#[test]
fn carriage_return_handled_gracefully() {
    let mut engine: NdjsonEngine<TestStruct> = NdjsonEngine::new();

    engine.input("{\"key\":1,\"value\":2}\r\n{\"key\":3,\"value\":4}\r\n");

    assert_values(&collect_output(engine), &[(1, 2), (3, 4)]);
}

#[test]
fn whitespace_handled_gracefully() {
    let mut engine: NdjsonEngine<TestStruct> = NdjsonEngine::new();

    engine.input("\t{ \"key\":\t13,  \"value\":   37 } \r\n");

    assert_values(&collect_output(engine), &[(13, 37)]);
}

#[test]
fn erroneous_entry_emitted_as_json_error() {
    let mut engine: NdjsonEngine<TestStruct> = NdjsonEngine::new();

    engine.input("{\"key\":1}\n{\"key\":1,\"value\":1}\n");

    let output = collect_output(engine);
    assert_eq!(output.len(), 2);
    assert!(output[0].is_err());
    assert!(output[1].is_ok());
}

#[test]
fn error_from_split_entry() {
    let mut engine: NdjsonEngine<TestStruct> = NdjsonEngine::new();

    engine.input("{\"key\":100,\"value\":200}\n{\"key\":");
    engine.input("\"should be a number\",\"value\":0}\n{\"key\":300,\"value\":400}\n");

    let output = collect_output(engine);
    assert_eq!(output.len(), 3);
    assert_eq!(output[0].as_ref().unwrap(), &TestStruct { key: 100, value: 200 });
    assert!(output[1].is_err());
    assert_eq!(output[2].as_ref().unwrap(), &TestStruct { key: 300, value: 400 });
}

#[test]
fn engine_input_works_for_different_types() {
    let mut engine: NdjsonEngine<TestStruct> = NdjsonEngine::default();

    engine.input(b"{\"k");
    engine.input(b"ey\"".to_vec());
    engine.input(":12".to_string());
    engine.input(&mut ",\"v".to_string());
    engine.input("alu".to_string().into_boxed_str());
    engine.input(b"e\"".to_vec().into_boxed_slice());
    engine.input(Arc::<str>::from(":3"));
    engine.input(Rc::<[u8]>::from(&b"4}"[..]));
    engine.input(Cow::Borrowed(&b"\r\n".to_vec()));

    assert_values(&collect_output(engine), &[(12, 34)]);
}

#[test]
fn old_data_is_discarded() {
    let mut engine: NdjsonEngine<TestStruct> = NdjsonEngine::new();
    let count = 20;

    engine.input("{ \"key\": 1, ");

    for _ in 0..(count - 1) {
        engine.input("\"value\": 2 }\r\n{ \"key\": 1, ");
    }

    engine.input("\"value\": 2 }\r\n");

    assert_eq!(engine.rest_len(), 0);
    assert_eq!(engine.queued_len(), count);
}

#[test]
fn raises_error_when_parsing_empty_line_in_parse_always_mode() {
    let mut engine = engine_with_empty_line_handling(EmptyLineHandling::ParseAlways);

    engine.input("{\"key\":1,\"value\":2}\n\n{\"key\":3,\"value\":4}\n");

    assert!(collect_output(engine).iter().any(Result::is_err));
}

#[test]
fn does_not_raise_error_when_parsing_empty_line_in_ignore_empty_mode() {
    let mut engine = engine_with_empty_line_handling(EmptyLineHandling::IgnoreEmpty);

    engine.input("{\"key\":1,\"value\":2}\n\n{\"key\":3,\"value\":4}\n");

    assert!(!collect_output(engine).iter().any(Result::is_err));
}

#[test]
fn does_not_raise_error_when_parsing_empty_line_with_carriage_return_in_ignore_empty_mode() {
    let mut engine = engine_with_empty_line_handling(EmptyLineHandling::IgnoreEmpty);

    engine.input("{\"key\":1,\"value\":2}\r\n\r\n{\"key\":3,\"value\":4}\n");

    assert!(!collect_output(engine).iter().any(Result::is_err));
}

#[test]
fn raises_error_when_parsing_non_empty_blank_line_in_ignore_empty_mode() {
    let mut engine = engine_with_empty_line_handling(EmptyLineHandling::IgnoreEmpty);

    engine.input("{\"key\":1,\"value\":2}\n \t\r\n{\"key\":3,\"value\":4}\n");

    assert!(collect_output(engine).iter().any(Result::is_err));
}

#[test]
fn does_not_raise_error_when_parsing_non_empty_blank_line_in_ignore_blank_mode() {
    let mut engine = engine_with_empty_line_handling(EmptyLineHandling::IgnoreBlank);

    engine.input("{\"key\":1,\"value\":2}\n \t\r\n{\"key\":3,\"value\":4}\n");

    assert!(!collect_output(engine).iter().any(Result::is_err));
}

#[test]
fn finalize_ignores_rest_if_parse_rest_is_false() {
    let mut engine = configured_engine(NdjsonConfig::default().with_parse_rest(false));

    engine.input("{\"key\":1,\"value\":2}");
    engine.finalize();

    assert!(collect_output(engine).is_empty());
}

#[test]
fn finalize_parses_valid_rest() {
    let handlings = [
        EmptyLineHandling::ParseAlways,
        EmptyLineHandling::IgnoreEmpty,
        EmptyLineHandling::IgnoreBlank,
    ];

    for handling in handlings {
        let mut engine = configured_engine(
            NdjsonConfig::default().with_empty_line_handling(handling).with_parse_rest(true),
        );

        engine.input("{\"key\":1,\"value\":2}");
        engine.finalize();

        assert_values(&collect_output(engine), &[(1, 2)]);
    }
}

#[test]
fn finalize_raises_error_on_invalid_rest() {
    let mut engine = configured_engine(NdjsonConfig::default().with_parse_rest(true));

    engine.input("invalid json");
    engine.finalize();

    let output = collect_output(engine);
    assert_eq!(output.len(), 1);
    assert!(output[0].is_err());
}

#[test]
fn finalize_ignores_empty_rest_even_if_empty_line_handling_is_parse_always() {
    let mut engine = configured_engine(
        NdjsonConfig::default()
            .with_empty_line_handling(EmptyLineHandling::ParseAlways)
            .with_parse_rest(true),
    );

    engine.finalize();

    assert!(collect_output(engine).is_empty());
}

#[test]
fn finalize_ignores_empty_rest_if_empty_line_handling_is_ignore_empty() {
    let mut engine = configured_engine(
        NdjsonConfig::default()
            .with_empty_line_handling(EmptyLineHandling::IgnoreEmpty)
            .with_parse_rest(true),
    );

    engine.finalize();

    assert!(collect_output(engine).is_empty());
}

#[test]
fn finalize_does_not_ignore_non_empty_blank_rest_if_empty_line_handling_is_ignore_empty() {
    let mut engine = configured_engine(
        NdjsonConfig::default()
            .with_empty_line_handling(EmptyLineHandling::IgnoreEmpty)
            .with_parse_rest(true),
    );

    engine.input(" ");
    engine.finalize();

    let output = collect_output(engine);
    assert_eq!(output.len(), 1);
    assert!(output[0].is_err());
}

#[test]
fn finalize_ignores_non_empty_blank_rest_if_empty_line_handling_is_ignore_blank() {
    let mut engine = configured_engine(
        NdjsonConfig::default()
            .with_empty_line_handling(EmptyLineHandling::IgnoreBlank)
            .with_parse_rest(true),
    );

    engine.input(" ");
    engine.finalize();

    assert!(collect_output(engine).is_empty());
}

#[test]
fn finalize_is_idempotent() {
    let mut engine = configured_engine(NdjsonConfig::default().with_parse_rest(true));

    engine.input("{\"key\":13,\"value\":37}");
    engine.finalize();
    engine.finalize();

    assert_values(&collect_output(engine), &[(13, 37)]);
}
