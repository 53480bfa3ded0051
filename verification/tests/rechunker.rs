use llm_proxy::codec::parse_json;
use llm_proxy::error::StreamError;
use llm_proxy::providers::OpenAIChatCompletionsProvider;
use llm_proxy::rechunk::{
    chunk_for_payload, classify_line, relay_outcomes, LineAction, PassthroughInput,
    PassthroughTranslator, SseRechunker,
};
use llm_proxy::response::{ChatCompletionsResponse, Choice, Delta, Function, ToolCall, Usage};
use llm_proxy::sse::SseEvent;
use llm_proxy::wire::{
    choice_from_json, chunk_from_json, delta_from_json, function_from_json, tool_call_from_json,
    usage_from_json,
};
use std::cell::RefCell;

fn no_callback(_usage: &Usage) {}

fn chars(text: &str) -> Vec<char> {
    text.chars().collect()
}

fn rechunker() -> SseRechunker {
    SseRechunker::new("req-1".to_string(), 42, "gpt-4o".to_string())
}

fn data(outcome: &Result<SseEvent, StreamError>) -> &str {
    match outcome {
        Ok(event) => event.data.as_str(),
        Err(error) => panic!("unexpected error: {:?}", error),
    }
}

#[test]
fn split_line_is_buffered_and_parsed_once() {
    let mut r = rechunker();
    let first = r.push_bytes("data: {\"i".as_bytes(), &no_callback);
    assert!(first.is_empty());
    assert_eq!(r.buffer(), "data: {\"i");
    let second = r.push_bytes("d\":\"x\"}\n".as_bytes(), &no_callback);
    assert_eq!(second.len(), 1);
    assert_eq!(
        data(&second[0]),
        "{\"choices\":[{\"delta\":{},\"index\":0}],\"created\":42,\"id\":\"x\",\"model\":\"gpt-4o\",\"object\":\"chat.completion.chunk\"}"
    );
    assert_eq!(r.buffer(), "");
    let third = r.push_bytes("".as_bytes(), &no_callback);
    assert!(third.is_empty());
}

#[test]
fn several_lines_in_one_piece() {
    let mut r = rechunker();
    let text = "data: {\"id\":\"a\"}\n\n: comment\nevent: ping\r\n  data: [DONE]  \r\ndata: {\"id\":\"b\"";
    let emitted = r.push_str(text, &no_callback);
    assert_eq!(emitted.len(), 2);
    assert_eq!(
        data(&emitted[0]),
        "{\"choices\":[{\"delta\":{},\"index\":0}],\"created\":42,\"id\":\"a\",\"model\":\"gpt-4o\",\"object\":\"chat.completion.chunk\"}"
    );
    assert_eq!(data(&emitted[1]), "[DONE]");
    assert_eq!(r.buffer(), "data: {\"id\":\"b\"");
    let emitted = r.push_str("}\n", &no_callback);
    assert_eq!(emitted.len(), 1);
    assert_eq!(
        data(&emitted[0]),
        "{\"choices\":[{\"delta\":{},\"index\":0}],\"created\":42,\"id\":\"b\",\"model\":\"gpt-4o\",\"object\":\"chat.completion.chunk\"}"
    );
}

#[test]
fn done_line_does_not_end_the_rechunker() {
    let mut r = rechunker();
    let emitted = r.push_str("data: [DONE]\ndata: [DONE]\n", &no_callback);
    assert_eq!(emitted.len(), 2);
    assert_eq!(data(&emitted[0]), "[DONE]");
    assert_eq!(data(&emitted[1]), "[DONE]");
}

#[test]
fn bad_line_gives_an_error_and_the_next_line_is_still_read() {
    let mut r = rechunker();
    let emitted = r.push_str("data: {oops\ndata: [1]\ndata: {\"id\":7}\ndata: {}\n", &no_callback);
    assert_eq!(emitted.len(), 4);
    assert_eq!(
        emitted[0],
        Err(StreamError::Serialization(
            "Failed to parse OpenAI chunk: key must be a string at line 1 column 2".to_string()
        ))
    );
    assert_eq!(
        emitted[1],
        Err(StreamError::Serialization("Failed to parse OpenAI chunk: not a chunk".to_string()))
    );
    assert_eq!(
        emitted[2],
        Err(StreamError::Serialization("Failed to parse OpenAI chunk: not a chunk".to_string()))
    );
    assert_eq!(
        data(&emitted[3]),
        "{\"choices\":[{\"delta\":{},\"index\":0}],\"created\":42,\"id\":\"req-1\",\"model\":\"gpt-4o\",\"object\":\"chat.completion.chunk\"}"
    );
}

#[test]
fn invalid_utf8_piece_is_dropped() {
    let mut r = rechunker();
    assert!(r.push_str("data: {\"id\":", &no_callback).is_empty());
    let emitted = r.push_bytes(&[0xff, 0xfe, b'\n'], &no_callback);
    assert!(emitted.is_empty());
    assert_eq!(r.buffer(), "data: {\"id\":");
    let emitted = r.push_bytes(&[0xe2, 0x82], &no_callback);
    assert!(emitted.is_empty());
    assert_eq!(r.buffer(), "data: {\"id\":");
    let emitted = r.push_bytes("\"\u{20ac}\"}\n".as_bytes(), &no_callback);
    assert_eq!(emitted.len(), 1);
    assert_eq!(
        data(&emitted[0]),
        "{\"choices\":[{\"delta\":{},\"index\":0}],\"created\":42,\"id\":\"\u{20ac}\",\"model\":\"gpt-4o\",\"object\":\"chat.completion.chunk\"}"
    );
}

#[test]
fn usage_is_copied_and_reported_once_per_event() {
    let seen: RefCell<Vec<Usage>> = RefCell::new(Vec::new());
    let callback = |usage: &Usage| seen.borrow_mut().push(*usage);
    let mut r = rechunker();
    let line = "data: {\"id\":\"c\",\"created\":7,\"model\":\"gpt-4o-mini\",\"object\":\"chat.completion.chunk\",\"choices\":[],\"usage\":{\"prompt_tokens\":5,\"completion_tokens\":2,\"total_tokens\":7,\"extra\":{}}}\n";
    let emitted = r.push_str(line, &callback);
    assert_eq!(emitted.len(), 1);
    assert_eq!(
        data(&emitted[0]),
        "{\"choices\":[{\"delta\":{},\"index\":0}],\"created\":7,\"id\":\"c\",\"model\":\"gpt-4o-mini\",\"object\":\"chat.completion.chunk\",\"usage\":{\"completion_tokens\":2,\"prompt_tokens\":5,\"total_tokens\":7}}"
    );
    assert_eq!(
        *seen.borrow(),
        vec![Usage { completion_tokens: 2, prompt_tokens: 5, total_tokens: 7 }]
    );
    let emitted = r.push_str("data: {\"usage\":null}\ndata: [DONE]\n", &callback);
    assert_eq!(emitted.len(), 2);
    assert_eq!(seen.borrow().len(), 1);
}

#[test]
fn provider_chunk_is_re_emitted_in_the_same_schema() {
    let mut r = rechunker();
    let line = "data: {\"id\":\"chatcmpl-9\",\"object\":\"chat.completion.chunk\",\"created\":1700000001,\"model\":\"gpt-4o\",\"system_fingerprint\":\"fp\",\"choices\":[{\"index\":0,\"delta\":{\"role\":\"assistant\",\"content\":\"\",\"tool_calls\":[{\"index\":0,\"id\":\"call_1\",\"type\":\"function\",\"function\":{\"name\":\"f\",\"arguments\":\"\"}},{\"index\":1,\"function\":{\"arguments\":\"{\\\"a\\\":\"}}]},\"logprobs\":null,\"finish_reason\":null},{\"index\":1,\"delta\":{},\"finish_reason\":\"length\"}]}\n";
    let emitted = r.push_str(line, &no_callback);
    assert_eq!(emitted.len(), 1);
    assert_eq!(
        data(&emitted[0]),
        "{\"choices\":[{\"delta\":{\"content\":\"\",\"role\":\"assistant\",\"tool_calls\":[{\"id\":\"call_1\",\"type\":\"function\",\"function\":{\"name\":\"f\",\"arguments\":\"\"},\"index\":0},{\"type\":\"function\",\"function\":{\"arguments\":\"{\\\"a\\\":\"},\"index\":1}]},\"index\":0},{\"delta\":{},\"finish_reason\":\"length\",\"index\":1}],\"created\":1700000001,\"id\":\"chatcmpl-9\",\"model\":\"gpt-4o\",\"object\":\"chat.completion.chunk\"}"
    );
}

#[test]
fn lines_are_classified_after_trimming() {
    assert_eq!(classify_line(&chars("")), LineAction::Skip);
    assert_eq!(classify_line(&chars(" \t\r\u{a0}\u{3000} ")), LineAction::Skip);
    assert_eq!(classify_line(&chars("data: [DONE]")), LineAction::Done);
    assert_eq!(classify_line(&chars("\tdata: [DONE]\r")), LineAction::Done);
    assert_eq!(classify_line(&chars("data: [DONE] x")), LineAction::Payload("[DONE] x".to_string()));
    assert_eq!(classify_line(&chars("data:  [DONE]")), LineAction::Payload(" [DONE]".to_string()));
    assert_eq!(classify_line(&chars("data: {}")), LineAction::Payload("{}".to_string()));
    assert_eq!(classify_line(&chars("data:")), LineAction::Skip);
    assert_eq!(classify_line(&chars("data: ")), LineAction::Skip);
    assert_eq!(classify_line(&chars("data:{}")), LineAction::Skip);
    assert_eq!(classify_line(&chars("Data: {}")), LineAction::Skip);
    assert_eq!(classify_line(&chars("event: x")), LineAction::Skip);
    assert_eq!(classify_line(&chars("x data: {}")), LineAction::Skip);
    assert_eq!(classify_line(&chars("data: \u{2028}x")), LineAction::Payload("\u{2028}x".to_string()));
    assert_eq!(classify_line(&chars("\u{200b}")), LineAction::Skip);
}

#[test]
fn take_lines_keeps_what_is_not_complete() {
    let mut r = rechunker();
    assert_eq!(r.take_lines("data: a\nda"), vec![LineAction::Payload("a".to_string())]);
    assert_eq!(r.buffer(), "da");
    assert_eq!(r.take_lines("ta: b"), vec![]);
    assert_eq!(r.buffer(), "data: b");
    assert_eq!(
        r.take_lines("\n\n\ndata: [DONE]\n"),
        vec![LineAction::Payload("b".to_string()), LineAction::Done]
    );
    assert_eq!(r.buffer(), "");
    assert_eq!(r.take_lines("\n"), vec![]);
    assert_eq!(r.take_lines(""), vec![]);
}

#[test]
fn answer_of_a_line_action() {
    let r = rechunker();
    assert_eq!(
        r.answer(&LineAction::Done, &no_callback),
        Some(Ok(SseEvent { data: "[DONE]".to_string() }))
    );
    assert_eq!(r.answer(&LineAction::Skip, &no_callback), None);
    assert_eq!(
        data(&r.answer(&LineAction::Payload("{\"model\":\"m\"}".to_string()), &no_callback).unwrap()),
        "{\"choices\":[{\"delta\":{},\"index\":0}],\"created\":42,\"id\":\"req-1\",\"model\":\"m\",\"object\":\"chat.completion.chunk\"}"
    );
}

#[test]
fn chunk_for_what_reading_gave() {
    let chunk = chunk_for_payload(parse_json("{\"choices\":[{\"delta\":{\"content\":\"hi\"}}]}"), "i", 1, "m").unwrap();
    assert_eq!(
        chunk,
        ChatCompletionsResponse {
            choices: vec![Choice {
                delta: Some(Delta { content: Some("hi".to_string()), role: None, tool_calls: None }),
                finish_reason: None,
                index: 0,
                logprobs: None,
            }],
            created: Some(1),
            id: Some("i".to_string()),
            model: Some("m".to_string()),
            object: Some("chat.completion.chunk".to_string()),
            usage: None,
        }
    );
    assert_eq!(
        chunk_for_payload(Err("eof".to_string()), "i", 1, "m"),
        Err(StreamError::Serialization("Failed to parse OpenAI chunk: eof".to_string()))
    );
    assert_eq!(
        chunk_for_payload(parse_json("\"text\""), "i", 1, "m"),
        Err(StreamError::Serialization("Failed to parse OpenAI chunk: not a chunk".to_string()))
    );
}

#[test]
fn decoding_refuses_members_of_the_wrong_type() {
    let refused = [
        "[]",
        "{\"id\":1}",
        "{\"created\":\"now\"}",
        "{\"created\":1.5}",
        "{\"created\":18446744073709551615}",
        "{\"model\":[]}",
        "{\"object\":{}}",
        "{\"choices\":{}}",
        "{\"choices\":[1]}",
        "{\"choices\":[{\"index\":\"0\"}]}",
        "{\"choices\":[{\"index\":2147483648}]}",
        "{\"choices\":[{\"finish_reason\":3}]}",
        "{\"choices\":[{\"logprobs\":{}}]}",
        "{\"choices\":[{\"delta\":\"x\"}]}",
        "{\"choices\":[{\"delta\":{\"content\":1}}]}",
        "{\"choices\":[{\"delta\":{\"role\":1}}]}",
        "{\"choices\":[{\"delta\":{\"tool_calls\":{}}}]}",
        "{\"choices\":[{\"delta\":{\"tool_calls\":[1]}}]}",
        "{\"choices\":[{\"delta\":{\"tool_calls\":[{\"id\":1}]}}]}",
        "{\"choices\":[{\"delta\":{\"tool_calls\":[{\"type\":1}]}}]}",
        "{\"choices\":[{\"delta\":{\"tool_calls\":[{\"index\":\"a\"}]}}]}",
        "{\"choices\":[{\"delta\":{\"tool_calls\":[{\"function\":1}]}}]}",
        "{\"choices\":[{\"delta\":{\"tool_calls\":[{\"function\":{\"name\":1}}]}}]}",
        "{\"choices\":[{\"delta\":{\"tool_calls\":[{\"function\":{\"arguments\":{}}}]}}]}",
        "{\"choices\":[{},{\"index\":true}]}",
        "{\"usage\":1}",
        "{\"usage\":{}}",
        "{\"usage\":{\"prompt_tokens\":1,\"completion_tokens\":1}}",
        "{\"usage\":{\"prompt_tokens\":1,\"completion_tokens\":1,\"total_tokens\":\"2\"}}",
        "{\"usage\":{\"prompt_tokens\":1,\"completion_tokens\":1,\"total_tokens\":-2147483649}}",
        "{\"usage\":{\"prompt_tokens\":1,\"completion_tokens\":-1,\"total_tokens\":0}}",
        "{\"usage\":{\"prompt_tokens\":1,\"completion_tokens\":1,\"total_tokens\":2147483648}}",
    ];
    for text in refused {
        let value = parse_json(text).unwrap();
        assert_eq!(chunk_from_json(&value, "i", 1, "m"), Err(()), "{}", text);
    }
}

#[test]
fn decoding_takes_null_for_missing() {
    let value = parse_json("{\"id\":null,\"created\":null,\"model\":null,\"object\":null,\"choices\":null,\"usage\":null}").unwrap();
    let chunk = chunk_from_json(&value, "i", -3, "m").unwrap();
    assert_eq!(
        chunk,
        ChatCompletionsResponse {
            choices: vec![Choice {
                delta: Some(Delta { content: None, role: None, tool_calls: None }),
                finish_reason: None,
                index: 0,
                logprobs: None,
            }],
            created: Some(-3),
            id: Some("i".to_string()),
            model: Some("m".to_string()),
            object: Some("chat.completion.chunk".to_string()),
            usage: None,
        }
    );
}

#[test]
fn decoding_the_parts_of_a_chunk() {
    let value = parse_json("{\"prompt_tokens\":1,\"completion_tokens\":0,\"total_tokens\":2147483647}").unwrap();
    assert_eq!(
        usage_from_json(&value),
        Ok(Usage { completion_tokens: 0, prompt_tokens: 1, total_tokens: i32::MAX })
    );
    let value = parse_json("{\"prompt_tokens\":-1,\"completion_tokens\":0,\"total_tokens\":0}").unwrap();
    assert_eq!(usage_from_json(&value), Err(()));
    let value = parse_json("{\"name\":\"f\",\"other\":1}").unwrap();
    assert_eq!(
        function_from_json(&value),
        Ok(Function { name: Some("f".to_string()), arguments: None })
    );
    let value = parse_json("{\"id\":\"c\",\"type\":\"custom\",\"index\":2}").unwrap();
    assert_eq!(
        tool_call_from_json(&value),
        Ok(ToolCall {
            id: Some("c".to_string()),
            tool_type: "custom".to_string(),
            function: None,
            index: Some(2),
        })
    );
    let value = parse_json("{}").unwrap();
    assert_eq!(
        tool_call_from_json(&value),
        Ok(ToolCall { id: None, tool_type: "function".to_string(), function: None, index: None })
    );
    let value = parse_json("{\"tool_calls\":[]}").unwrap();
    assert_eq!(
        delta_from_json(&value),
        Ok(Delta { content: None, role: None, tool_calls: Some(vec![]) })
    );
    let value = parse_json("{\"index\":3,\"finish_reason\":\"stop\",\"logprobs\":\"l\"}").unwrap();
    assert_eq!(
        choice_from_json(&value),
        Ok(Choice {
            delta: None,
            finish_reason: Some("stop".to_string()),
            index: 3,
            logprobs: Some("l".to_string()),
        })
    );
    assert_eq!(usage_from_json(&parse_json("[]").unwrap()), Err(()));
    assert_eq!(function_from_json(&parse_json("[]").unwrap()), Err(()));
    assert_eq!(tool_call_from_json(&parse_json("[]").unwrap()), Err(()));
    assert_eq!(delta_from_json(&parse_json("[]").unwrap()), Err(()));
    assert_eq!(choice_from_json(&parse_json("[]").unwrap()), Err(()));
}

#[test]
fn provider_makes_its_rechunker() {
    let mut r = OpenAIChatCompletionsProvider::rechunker("rid".to_string(), 5, "gpt-x");
    let emitted = r.push_str("data: {}\n", &no_callback);
    assert_eq!(
        data(&emitted[0]),
        "{\"choices\":[{\"delta\":{},\"index\":0}],\"created\":5,\"id\":\"rid\",\"model\":\"gpt-x\",\"object\":\"chat.completion.chunk\"}"
    );
}

fn payloads(emitted: &[SseEvent]) -> Vec<&str> {
    emitted.iter().map(|e| e.data.as_str()).collect()
}

#[test]
fn relay_stops_at_the_first_failure() {
    let ok = |data: &str| Ok(SseEvent { data: data.to_string() });
    let (emitted, failed) = relay_outcomes(vec![ok("a"), ok("b")]);
    assert_eq!(payloads(&emitted), vec!["a", "b"]);
    assert!(!failed);
    let (emitted, failed) = relay_outcomes(vec![]);
    assert!(emitted.is_empty());
    assert!(!failed);
    let (emitted, failed) = relay_outcomes(vec![
        ok("a"),
        Err(StreamError::Serialization("bad line".to_string())),
        ok("never sent"),
        Err(StreamError::Serialization("second".to_string())),
    ]);
    assert!(failed);
    assert_eq!(
        payloads(&emitted),
        vec![
            "a",
            "{\"error\":{\"message\":\"Serialization error: bad line\",\"type\":\"server_error\",\"param\":null,\"code\":\"serialization_error\"}}",
            "[DONE]",
        ]
    );
}

#[test]
fn passthrough_response_step_by_step() {
    let mut t = PassthroughTranslator::new(rechunker());
    assert!(!t.is_finished());
    let emitted = t.step(&PassthroughInput::Bytes("data: {\"i".as_bytes().to_vec()), &no_callback);
    assert!(emitted.is_empty());
    let emitted = t.step(
        &PassthroughInput::Bytes("d\":\"x\"}\n\ndata: [DONE]\n\n".as_bytes().to_vec()),
        &no_callback,
    );
    assert_eq!(
        payloads(&emitted),
        vec![
            "{\"choices\":[{\"delta\":{},\"index\":0}],\"created\":42,\"id\":\"x\",\"model\":\"gpt-4o\",\"object\":\"chat.completion.chunk\"}",
            "[DONE]",
        ]
    );
    assert!(!t.is_finished());
    let emitted = t.step(&PassthroughInput::Bytes(vec![0xff]), &no_callback);
    assert!(emitted.is_empty());
    assert!(!t.is_finished());
    let emitted = t.step(&PassthroughInput::End, &no_callback);
    assert!(emitted.is_empty());
    assert!(t.is_finished());
    let emitted = t.step(&PassthroughInput::Bytes("data: {}\n".as_bytes().to_vec()), &no_callback);
    assert!(emitted.is_empty());
    assert!(t.step(&PassthroughInput::ReceiveError("late".to_string()), &no_callback).is_empty());
}

#[test]
fn passthrough_failure_is_reported_once_and_ends_the_response() {
    let mut t = PassthroughTranslator::new(rechunker());
    let emitted = t.step(
        &PassthroughInput::Bytes("data: {}\ndata: [1]\ndata: {}\n".as_bytes().to_vec()),
        &no_callback,
    );
    assert_eq!(
        payloads(&emitted),
        vec![
            "{\"choices\":[{\"delta\":{},\"index\":0}],\"created\":42,\"id\":\"req-1\",\"model\":\"gpt-4o\",\"object\":\"chat.completion.chunk\"}",
            "{\"error\":{\"message\":\"Serialization error: Failed to parse OpenAI chunk: not a chunk\",\"type\":\"server_error\",\"param\":null,\"code\":\"serialization_error\"}}",
            "[DONE]",
        ]
    );
    assert!(t.is_finished());
    assert!(t.step(&PassthroughInput::End, &no_callback).is_empty());
    let mut t = PassthroughTranslator::new(rechunker());
    let emitted = t.step(
        &PassthroughInput::ReceiveError("connection reset; rate limit".to_string()),
        &no_callback,
    );
    assert_eq!(
        payloads(&emitted),
        vec![
            "{\"error\":{\"message\":\"Rate limit exceeded, please retry later: connection reset; rate limit\",\"type\":\"rate_limit_error\",\"param\":null,\"code\":\"rate_limit_exceeded\"}}",
            "[DONE]",
        ]
    );
    assert!(t.is_finished());
}

#[test]
fn any_splitting_gives_the_same_items() {
    let whole = "data: {\"id\":\"a\"}\n\ndata: nope\r\ndata: {\"id\":\"\u{e9}\"}\n: note\ndata: [DONE]\ndata: {\"id\":\"tail\"";
    let mut in_one = rechunker();
    let expected = in_one.push_str(whole, &no_callback);
    assert_eq!(expected.len(), 4);
    assert!(expected[0].is_ok());
    assert!(expected[1].is_err());
    assert!(expected[2].is_ok());
    assert_eq!(data(&expected[3]), "[DONE]");
    let positions: Vec<usize> = whole.char_indices().map(|(at, _)| at).collect();
    for first in positions.iter() {
        for second in positions.iter().filter(|second| *second >= first) {
            let mut in_three = rechunker();
            let mut emitted = in_three.push_str(&whole[..*first], &no_callback);
            emitted.extend(in_three.push_str(&whole[*first..*second], &no_callback));
            emitted.extend(in_three.push_str(&whole[*second..], &no_callback));
            assert_eq!(emitted, expected);
            assert_eq!(in_three.buffer(), in_one.buffer());
        }
    }
}
