use llama_link::{
    CompletionResponse, CompletionStream, CompletionStreamError, LlamaLink, Message, PromptFormatter, StreamEvent,
    StreamState,
};
use serde_json::Value;

fn stream() -> CompletionStream {
    LlamaLink::new("http://127.0.0.1:3756", serde_json::Map::new()).create_completion_stream("x".to_owned())
}

fn message(data: &str) -> StreamEvent {
    StreamEvent::Message(data.to_owned())
}

fn run(stream: &mut CompletionStream, events: Vec<StreamEvent>) -> Vec<Result<String, CompletionStreamError>> {
    let mut items = Vec::new();
    for event in events {
        match stream.next(event) {
            Some(item) => items.push(item),
            None => break,
        }
    }
    items
}

#[test]
fn completion_stream() {
    let link = LlamaLink::new("http://127.0.0.1:3756", serde_json::Map::new());
    let mut response_stream = link.create_formatted_completion_stream(
        "",
        &vec![Message::User("In one sentence, tell me a joke.".to_owned())],
        &PromptFormatter::default(),
    );
    let events = vec![
        StreamEvent::Open,
        message("{\"content\": \"Why\", \"stop\": false}"),
        message("{\"content\": \" not?\", \"stop\": false}"),
        message("{\"content\": \"\", \"stop\": true}"),
    ];
    let mut count = 0;
    for event in events {
        match response_stream.next(event) {
            Some(Ok(_)) => {}
            Some(Err(error)) => panic!("{}", error.to_string()),
            None => break,
        }
        count += 1;
    }
    assert!(count > 0);
}

#[test]
fn a_stream_ends_on_stop() {
    let mut stream = stream();
    let items = run(
        &mut stream,
        vec![
            StreamEvent::Open,
            message("{\"content\":\"a\"}"),
            message("{\"content\":\"b\",\"stop\":true}"),
        ],
    );
    assert_eq!(items, vec![Ok(String::new()), Ok("a".to_owned())]);
    assert_eq!(stream.state(), StreamState::Terminated);
    assert!(stream.is_terminated());
}

#[test]
fn a_stream_outlives_one_bad_frame() {
    let mut stream = stream();
    assert_eq!(stream.next(StreamEvent::Open), Some(Ok(String::new())));
    let bad = stream.next(message("{\"content\": "));
    let expected = serde_json::from_str::<Value>("{\"content\": ").unwrap_err().to_string();
    assert_eq!(bad, Some(Err(CompletionStreamError::Deserialization(expected))));
    assert_eq!(stream.state(), StreamState::Streaming);
    assert_eq!(stream.next(message("{\"content\":\"c\"}")), Some(Ok("c".to_owned())));
    assert_eq!(stream.next(message("{\"content\":\"d\",\"stop\":true}")), None);
    assert!(stream.is_terminated());
}

#[test]
fn one_bad_frame_then_a_stop_frame() {
    let mut stream = stream();
    let items = run(
        &mut stream,
        vec![StreamEvent::Open, message("not json"), message("{\"content\":\"c\",\"stop\":true}")],
    );
    assert_eq!(items.len(), 2);
    assert_eq!(items[0], Ok(String::new()));
    assert!(matches!(items[1], Err(CompletionStreamError::Deserialization(_))));
    assert!(stream.is_terminated());
}

#[test]
fn a_frame_of_the_wrong_shape_is_an_error_item() {
    let mut stream = stream();
    assert_eq!(
        stream.next(message("[1, 2]")),
        Some(Err(CompletionStreamError::Deserialization("the response is not a JSON object".to_owned())))
    );
    assert_eq!(
        stream.next(message("{\"content\": []}")),
        Some(Err(CompletionStreamError::Deserialization(
            "the `content` field of the response is not a string".to_owned()
        )))
    );
    assert_eq!(
        stream.next(message("{\"stop\": 0}")),
        Some(Err(CompletionStreamError::Deserialization(
            "the `stop` field of the response is not a boolean".to_owned()
        )))
    );
    assert_eq!(stream.state(), StreamState::Streaming);
}

#[test]
fn a_new_stream_is_connecting_and_asks_for_a_stream() {
    let mut config = serde_json::Map::new();
    config.insert("n_predict".to_owned(), Value::from(16));
    let link = LlamaLink::new("http://h:1", config.clone());
    let stream = link.create_completion_stream("p".to_owned());
    assert_eq!(stream.state(), StreamState::Connecting);
    assert!(!stream.is_terminated());
    let mut expected = config;
    expected.insert("prompt".to_owned(), Value::String("p".to_owned()));
    expected.insert("stream".to_owned(), Value::Bool(true));
    assert_eq!(stream.request().url, "http://h:1/completion");
    assert_eq!(stream.request().body, expected);
}

#[test]
fn a_formatted_stream_sends_the_rendered_prompt() {
    let link = LlamaLink::new("http://h", serde_json::Map::new());
    let formatter = PromptFormatter::default_const();
    let messages = vec![Message::User("hello".to_owned())];
    let stream = link.create_formatted_completion_stream("sys", &messages, &formatter);
    let prompt = formatter.format("sys", &messages);
    assert_eq!(stream.request().body.get("prompt"), Some(&Value::String(prompt)));
    assert_eq!(stream.request().body.get("stream"), Some(&Value::Bool(true)));
    assert_eq!(stream.request().body.len(), 2);
}

#[test]
fn open_yields_the_empty_fragment() {
    let mut stream = stream();
    assert_eq!(stream.next(StreamEvent::Open), Some(Ok(String::new())));
    assert_eq!(stream.state(), StreamState::Streaming);
    assert_eq!(stream.next(StreamEvent::Open), Some(Ok(String::new())));
    assert_eq!(stream.state(), StreamState::Streaming);
}

#[test]
fn a_failure_to_connect_yields_one_error_and_ends() {
    let mut stream = stream();
    assert_eq!(
        stream.next(StreamEvent::Failed("connection refused".to_owned())),
        Some(Err(CompletionStreamError::SSE("connection refused".to_owned())))
    );
    assert_eq!(stream.state(), StreamState::Terminated);
    assert_eq!(stream.next(StreamEvent::Open), None);
    assert_eq!(stream.next(StreamEvent::Failed("again".to_owned())), None);
}

#[test]
fn a_transport_failure_ends_a_running_stream_with_an_error() {
    let mut stream = stream();
    let items = run(
        &mut stream,
        vec![
            StreamEvent::Open,
            message("{\"content\":\"a\"}"),
            StreamEvent::Failed("reset by peer".to_owned()),
            message("{\"content\":\"b\"}"),
        ],
    );
    assert_eq!(
        items,
        vec![
            Ok(String::new()),
            Ok("a".to_owned()),
            Err(CompletionStreamError::SSE("reset by peer".to_owned())),
        ]
    );
    assert!(stream.is_terminated());
    assert_eq!(stream.next(message("{\"content\":\"b\"}")), None);
}

#[test]
fn the_end_of_the_stream_is_no_error() {
    let mut stream = stream();
    let items = run(&mut stream, vec![StreamEvent::Open, message("{\"content\":\"a\"}"), StreamEvent::Ended]);
    assert_eq!(items, vec![Ok(String::new()), Ok("a".to_owned())]);
    assert!(stream.is_terminated());
}

#[test]
fn a_terminated_stream_yields_nothing_more() {
    let mut stream = stream();
    assert_eq!(stream.next(StreamEvent::Ended), None);
    assert_eq!(stream.state(), StreamState::Terminated);
    assert_eq!(stream.next(StreamEvent::Open), None);
    assert_eq!(stream.next(message("{\"content\":\"a\"}")), None);
    assert_eq!(stream.next(message("garbage")), None);
    assert_eq!(stream.next(StreamEvent::Ended), None);
    assert_eq!(stream.next(StreamEvent::Failed("late".to_owned())), None);
    assert_eq!(stream.next_frame(Ok(CompletionResponse { content: Some("a".to_owned()), stop: None })), None);
    assert_eq!(stream.next_frame(Err("bad".to_owned())), None);
    assert_eq!(stream.state(), StreamState::Terminated);
}

#[test]
fn a_frame_without_content_yields_the_empty_fragment() {
    let mut stream = stream();
    assert_eq!(stream.next(message("{}")), Some(Ok(String::new())));
    assert_eq!(stream.next(message("{\"stop\": false}")), Some(Ok(String::new())));
    assert_eq!(stream.next(message("{\"content\": null, \"stop\": null}")), Some(Ok(String::new())));
    assert_eq!(stream.state(), StreamState::Streaming);
}

#[test]
fn a_stop_frame_gives_no_fragment_whatever_it_holds() {
    let mut with_content = stream();
    assert_eq!(with_content.next(message("{\"content\":\"last words\",\"stop\":true}")), None);
    assert!(with_content.is_terminated());
    let mut without_content = stream();
    assert_eq!(without_content.next(message("{\"stop\":true}")), None);
    assert!(without_content.is_terminated());
}

#[test]
fn fragments_come_in_the_order_of_the_frames() {
    let mut stream = stream();
    let items = run(
        &mut stream,
        vec![
            StreamEvent::Open,
            message("{\"content\":\"one\"}"),
            message("{\"content\":\" two\"}"),
            message("{\"content\":\" three\"}"),
            StreamEvent::Ended,
        ],
    );
    assert_eq!(
        items,
        vec![Ok(String::new()), Ok("one".to_owned()), Ok(" two".to_owned()), Ok(" three".to_owned())]
    );
}

#[test]
fn a_frame_that_was_read_already_is_taken_as_it_is() {
    let mut stream = stream();
    assert_eq!(
        stream.next_frame(Ok(CompletionResponse { content: Some("a".to_owned()), stop: Some(false) })),
        Some(Ok("a".to_owned()))
    );
    assert_eq!(stream.state(), StreamState::Streaming);
    assert_eq!(
        stream.next_frame(Err("bad frame".to_owned())),
        Some(Err(CompletionStreamError::Deserialization("bad frame".to_owned())))
    );
    assert_eq!(stream.state(), StreamState::Streaming);
    assert_eq!(stream.next_frame(Ok(CompletionResponse { content: None, stop: Some(true) })), None);
    assert_eq!(stream.state(), StreamState::Terminated);
}

#[test]
fn closing_a_stream_ends_it() {
    let mut stream = stream();
    assert_eq!(stream.next(StreamEvent::Open), Some(Ok(String::new())));
    stream.close();
    assert!(stream.is_terminated());
    assert_eq!(stream.next(message("{\"content\":\"a\"}")), None);
    let mut unopened = self::stream();
    unopened.close();
    assert_eq!(unopened.state(), StreamState::Terminated);
    assert_eq!(unopened.next(StreamEvent::Open), None);
}

#[test]
fn feeding_a_run_that_ends_on_stop() {
    let mut stream = stream();
    let items = stream.feed(vec![
        StreamEvent::Open,
        message("{\"content\":\"a\"}"),
        message("{\"content\":\"b\",\"stop\":true}"),
    ]);
    assert_eq!(items, vec![Ok(String::new()), Ok("a".to_owned())]);
    assert_eq!(stream.state(), StreamState::Terminated);
}

#[test]
fn feeding_a_run_with_one_bad_frame() {
    let mut stream = stream();
    let items = stream.feed(vec![
        StreamEvent::Open,
        message("{\"content\": tru}"),
        message("{\"content\":\"c\"}"),
        message("{\"content\":\"d\",\"stop\":true}"),
    ]);
    let bad = serde_json::from_str::<Value>("{\"content\": tru}").unwrap_err().to_string();
    assert_eq!(
        items,
        vec![Ok(String::new()), Err(CompletionStreamError::Deserialization(bad)), Ok("c".to_owned())]
    );
    assert!(stream.is_terminated());
}

#[test]
fn feeding_passes_over_what_follows_the_end() {
    let mut stream = stream();
    let items = stream.feed(vec![
        message("{\"content\":\"a\"}"),
        StreamEvent::Ended,
        message("{\"content\":\"b\"}"),
        StreamEvent::Failed("late".to_owned()),
        StreamEvent::Open,
    ]);
    assert_eq!(items, vec![Ok("a".to_owned())]);
    assert!(stream.is_terminated());
    assert_eq!(stream.feed(vec![StreamEvent::Open]), Vec::new());
}

#[test]
fn feeding_in_parts_is_feeding_at_once() {
    let events = || {
        vec![
            StreamEvent::Open,
            message("{\"content\":\"a\"}"),
            message("oops"),
            message("{\"content\":\"b\"}"),
            StreamEvent::Failed("reset".to_owned()),
            message("{\"content\":\"c\"}"),
        ]
    };
    let mut whole = stream();
    let at_once = whole.feed(events());
    let mut parts = stream();
    let mut rest = events();
    let tail = rest.split_off(2);
    let mut in_parts = parts.feed(rest);
    in_parts.extend(parts.feed(tail));
    assert_eq!(at_once, in_parts);
    assert_eq!(whole.state(), parts.state());
    assert_eq!(at_once.len(), 5);
    assert_eq!(parts.feed(Vec::new()), Vec::new());
}

#[test]
fn a_streaming_request_sets_stream_itself_and_has_no_schema() {
    let mut config = serde_json::Map::new();
    config.insert("stream".to_owned(), Value::Bool(false));
    config.insert("json_schema".to_owned(), Value::Object(serde_json::Map::new()));
    config.insert("n_predict".to_owned(), Value::from(8));
    let link = LlamaLink::new("http://h", config);
    let stream = link.create_completion_stream("p".to_owned());
    let mut expected = serde_json::Map::new();
    expected.insert("n_predict".to_owned(), Value::from(8));
    expected.insert("prompt".to_owned(), Value::String("p".to_owned()));
    expected.insert("stream".to_owned(), Value::Bool(true));
    assert_eq!(stream.request().body, expected);
}
