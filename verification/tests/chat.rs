use codex_bridge::chat::completion::emit_chat_completion_items;
use codex_bridge::chat::events::ApiError;
use codex_bridge::chat::events::ChatChoice;
use codex_bridge::chat::events::ChatChunk;
use codex_bridge::chat::events::ChatDelta;
use codex_bridge::chat::events::ChatFunctionDelta;
use codex_bridge::chat::events::ChatToolCallDelta;
use codex_bridge::chat::events::ChatUsage;
use codex_bridge::chat::events::ContentItem;
use codex_bridge::chat::events::ReasoningDetail;
use codex_bridge::chat::events::ResponseEvent;
use codex_bridge::chat::events::ResponseItem;
use codex_bridge::chat::events::TokenUsage;
use codex_bridge::chat::stream::chunk_is_addressable;
use codex_bridge::chat::stream::opening_events;
use codex_bridge::chat::stream::process_chat_sse;
use codex_bridge::chat::stream::ChatStream;
use codex_bridge::chat::stream::SseAction;
use codex_bridge::chat::stream::SseInput;
use codex_bridge::chat::tool_calls::merge_tool_call_deltas;
use codex_bridge::chat::tool_calls::AggregatedToolCall;

fn call_delta(
    index: Option<usize>,
    id: Option<&str>,
    name: Option<&str>,
    arguments: Option<&str>,
) -> ChatToolCallDelta {
    ChatToolCallDelta {
        index,
        id: id.map(str::to_string),
        function: Some(ChatFunctionDelta {
            name: name.map(str::to_string),
            arguments: arguments.map(str::to_string),
        }),
    }
}

fn choice(
    content: Option<&str>,
    reasoning: Option<Vec<Option<&str>>>,
    tool_calls: Option<Vec<ChatToolCallDelta>>,
) -> ChatChoice {
    ChatChoice {
        delta: ChatDelta {
            content: content.map(str::to_string),
            tool_calls,
            reasoning_details: reasoning.map(|details| {
                details
                    .into_iter()
                    .map(|text| ReasoningDetail { text: text.map(str::to_string) })
                    .collect()
            }),
        },
        finish_reason: None,
        index: Some(0),
    }
}

fn chunk(id: Option<&str>, model: Option<&str>, choices: Vec<ChatChoice>) -> ChatChunk {
    ChatChunk {
        id: id.map(str::to_string),
        model: model.map(str::to_string),
        choices,
        usage: None,
    }
}

fn assistant(content: Vec<ContentItem>) -> ResponseItem {
    ResponseItem::Message {
        id: None,
        role: "assistant".to_string(),
        content,
        end_turn: None,
        phase: None,
    }
}

fn text_item(text: &str) -> ResponseItem {
    assistant(vec![ContentItem::OutputText { text: text.to_string() }])
}

fn take(stream: &mut ChatStream, chunk: ChatChunk) -> Vec<ResponseEvent> {
    match process_chat_sse(stream, SseInput::Decoded { chunk: Some(chunk) }) {
        SseAction::Continue { events } => events,
        other => panic!("unexpected action: {other:?}"),
    }
}

fn finish(stream: &mut ChatStream, input: SseInput) -> Vec<ResponseEvent> {
    match process_chat_sse(stream, input) {
        SseAction::Finish { events } => events,
        other => panic!("unexpected action: {other:?}"),
    }
}

#[test]
fn merge_tool_call_deltas_concatenates_partial_chunks() {
    let mut aggregated = Vec::new();
    merge_tool_call_deltas(
        &mut aggregated,
        vec![ChatToolCallDelta {
            index: Some(0),
            id: Some("call_1".to_string()),
            function: Some(ChatFunctionDelta {
                name: Some("exec_".to_string()),
                arguments: Some("{\"cmd\":\"".to_string()),
            }),
        }],
    );
    merge_tool_call_deltas(
        &mut aggregated,
        vec![ChatToolCallDelta {
            index: Some(0),
            id: None,
            function: Some(ChatFunctionDelta {
                name: Some("command".to_string()),
                arguments: Some("pwd\"}".to_string()),
            }),
        }],
    );

    assert_eq!(aggregated.len(), 1);
    assert_eq!(aggregated[0].id.as_deref(), Some("call_1"));
    assert_eq!(aggregated[0].name, "exec_command");
    assert_eq!(aggregated[0].arguments, "{\"cmd\":\"pwd\"}");
}

#[test]
fn emit_chat_completion_items_emits_tool_message_and_completed() {
    let tool_calls = vec![AggregatedToolCall {
        id: Some("call_1".to_string()),
        name: "exec_command".to_string(),
        arguments: "{\"cmd\":\"pwd\"}".to_string(),
    }];

    let events = emit_chat_completion_items("done", &tool_calls, "resp_1".to_string(), None);
    let mut events = events.into_iter();

    let first = events.next().expect("event");
    let second = events.next().expect("event");
    let third = events.next().expect("event");
    assert!(events.next().is_none());

    match first {
        ResponseEvent::OutputItemDone(ResponseItem::FunctionCall {
            name,
            call_id,
            arguments,
            ..
        }) => {
            assert_eq!(name, "exec_command");
            assert_eq!(call_id, "call_1");
            assert_eq!(arguments, "{\"cmd\":\"pwd\"}");
        }
        other => panic!("unexpected first event: {other:?}"),
    }

    match second {
        ResponseEvent::OutputItemDone(ResponseItem::Message { role, content, .. }) => {
            assert_eq!(role, "assistant");
            assert_eq!(
                content,
                vec![ContentItem::OutputText {
                    text: "done".to_string(),
                }]
            );
        }
        other => panic!("unexpected second event: {other:?}"),
    }

    match third {
        ResponseEvent::Completed {
            response_id,
            ..
        } => {
            assert_eq!(response_id, "resp_1");
        }
        other => panic!("unexpected third event: {other:?}"),
    }
}

#[test]
fn calls_without_a_name_are_left_out_and_missing_ids_are_made_up() {
    let mut calls = Vec::new();
    merge_tool_call_deltas(
        &mut calls,
        vec![
            call_delta(Some(2), None, Some("grep"), None),
            call_delta(Some(0), Some("a"), Some(" \t"), Some("{}")),
            call_delta(None, Some("b"), None, None),
        ],
    );
    assert_eq!(calls.len(), 3);
    assert_eq!(calls[0].id.as_deref(), Some("b"));
    assert_eq!(calls[1].name, "");

    let events = emit_chat_completion_items(" \n", &calls, String::new(), None);
    assert_eq!(
        events,
        vec![
            ResponseEvent::OutputItemDone(ResponseItem::FunctionCall {
                id: None,
                name: "grep".to_string(),
                arguments: String::new(),
                call_id: "chat_tool_call_2".to_string(),
                namespace: None,
            }),
            ResponseEvent::Completed {
                response_id: String::new(),
                token_usage: None,
            },
        ]
    );
}

#[test]
fn made_up_ids_count_in_decimal() {
    let mut calls = Vec::new();
    merge_tool_call_deltas(&mut calls, vec![call_delta(Some(120), None, Some("ls"), None)]);
    let events = emit_chat_completion_items("", &calls, "r".to_string(), None);
    assert_eq!(events.len(), 2);
    match &events[0] {
        ResponseEvent::OutputItemDone(ResponseItem::FunctionCall { call_id, .. }) => {
            assert_eq!(call_id, "chat_tool_call_120");
        }
        other => panic!("unexpected event: {other:?}"),
    }
}

#[test]
fn fragments_in_one_list_or_in_several_come_out_alike() {
    let whole = || {
        vec![
            call_delta(Some(1), Some("x"), Some("ap"), Some("{")),
            call_delta(Some(0), Some("y"), Some("ls"), Some("[]")),
            call_delta(Some(1), Some("z"), Some("ply"), Some("}")),
        ]
    };
    let mut at_once = Vec::new();
    merge_tool_call_deltas(&mut at_once, whole());
    let mut in_parts = Vec::new();
    for delta in whole() {
        merge_tool_call_deltas(&mut in_parts, vec![delta]);
    }
    assert_eq!(at_once.len(), 2);
    assert_eq!(in_parts.len(), 2);
    for (a, b) in at_once.iter().zip(&in_parts) {
        assert_eq!((&a.id, &a.name, &a.arguments), (&b.id, &b.name, &b.arguments));
    }
    assert_eq!(at_once[1].name, "apply");
    assert_eq!(at_once[1].arguments, "{}");
    assert_eq!(at_once[1].id.as_deref(), Some("z"));
}

#[test]
fn a_stream_announces_the_response_and_the_item_before_it_streams() {
    let mut stream = ChatStream::new();
    let first = take(
        &mut stream,
        chunk(
            Some("resp_1"),
            Some("model-a"),
            vec![choice(Some("Hel"), Some(vec![Some("think"), None, Some("more")]), None)],
        ),
    );
    assert_eq!(
        first,
        vec![
            ResponseEvent::Created,
            ResponseEvent::ServerModel("model-a".to_string()),
            ResponseEvent::OutputItemAdded(assistant(vec![])),
            ResponseEvent::ReasoningSummaryPartAdded { summary_index: 0 },
            ResponseEvent::ReasoningSummaryDelta {
                delta: "think".to_string(),
                summary_index: 0,
            },
            ResponseEvent::ReasoningSummaryDelta {
                delta: "more".to_string(),
                summary_index: 0,
            },
            ResponseEvent::OutputTextDelta("Hel".to_string()),
        ]
    );

    let second = take(
        &mut stream,
        chunk(
            Some("resp_2"),
            Some("model-a"),
            vec![choice(Some("lo"), Some(vec![Some("again")]), None)],
        ),
    );
    assert_eq!(
        second,
        vec![
            ResponseEvent::ReasoningSummaryDelta {
                delta: "again".to_string(),
                summary_index: 0,
            },
            ResponseEvent::OutputTextDelta("lo".to_string()),
        ]
    );

    assert_eq!(
        finish(&mut stream, SseInput::Closed),
        vec![
            ResponseEvent::OutputItemDone(text_item("Hello")),
            ResponseEvent::Completed {
                response_id: "resp_1".to_string(),
                token_usage: None,
            },
        ]
    );
}

#[test]
fn models_are_named_whenever_they_change() {
    let mut stream = ChatStream::new();
    let mut named = Vec::new();
    for model in [Some("a"), Some("a"), None, Some("b"), Some("a")] {
        for event in take(&mut stream, chunk(None, model, vec![])) {
            if let ResponseEvent::ServerModel(model) = event {
                named.push(model);
            }
        }
    }
    assert_eq!(named, vec!["a", "b", "a"]);
}

#[test]
fn empty_pieces_open_an_item_but_no_summary_part() {
    let mut stream = ChatStream::new();
    let events = take(&mut stream, chunk(None, None, vec![choice(None, Some(vec![None]), None)]));
    assert_eq!(
        events,
        vec![
            ResponseEvent::Created,
            ResponseEvent::OutputItemAdded(assistant(vec![])),
        ]
    );
    let events = take(&mut stream, chunk(None, None, vec![choice(Some(""), None, None)]));
    assert_eq!(events, vec![ResponseEvent::OutputTextDelta(String::new())]);
}

#[test]
fn the_done_mark_and_a_closed_connection_end_a_stream_alike() {
    let inputs = [
        SseInput::Closed,
        SseInput::Event { data: "[DONE]".to_string() },
        SseInput::Event { data: " \u{2003}[DONE]\n".to_string() },
    ];
    for input in inputs {
        let mut stream = ChatStream::new();
        let mut last = chunk(
            Some("resp"),
            None,
            vec![choice(
                Some("text"),
                None,
                Some(vec![call_delta(None, Some("c"), Some("ls"), Some("{}"))]),
            )],
        );
        last.usage = Some(ChatUsage {
            prompt_tokens: 7,
            completion_tokens: 5,
            total_tokens: 12,
        });
        take(&mut stream, last);
        assert_eq!(
            finish(&mut stream, input),
            vec![
                ResponseEvent::OutputItemDone(ResponseItem::FunctionCall {
                    id: None,
                    name: "ls".to_string(),
                    arguments: "{}".to_string(),
                    call_id: "c".to_string(),
                    namespace: None,
                }),
                ResponseEvent::OutputItemDone(text_item("text")),
                ResponseEvent::Completed {
                    response_id: "resp".to_string(),
                    token_usage: Some(TokenUsage {
                        input_tokens: 7,
                        cached_input_tokens: 0,
                        output_tokens: 5,
                        reasoning_output_tokens: 0,
                        total_tokens: 12,
                    }),
                },
            ]
        );
    }
}

#[test]
fn usage_counts_as_last_sent() {
    let usage = |n: i64| ChatUsage {
        prompt_tokens: n,
        completion_tokens: 2 * n,
        total_tokens: 3 * n,
    };
    let mut stream = ChatStream::new();
    for sent in [Some(usage(1)), Some(usage(4)), None] {
        let mut next = chunk(None, None, vec![]);
        next.usage = sent;
        take(&mut stream, next);
    }
    assert_eq!(
        finish(&mut stream, SseInput::Closed),
        vec![ResponseEvent::Completed {
            response_id: String::new(),
            token_usage: Some(TokenUsage::from(usage(4))),
        }]
    );
}

#[test]
fn data_is_handed_out_for_decoding_and_passed_over_if_it_is_no_chunk() {
    let mut stream = ChatStream::new();
    match process_chat_sse(&mut stream, SseInput::Event { data: " {\"id\":1} ".to_string() }) {
        SseAction::Decode { data } => assert_eq!(data, " {\"id\":1} "),
        other => panic!("unexpected action: {other:?}"),
    }
    match process_chat_sse(&mut stream, SseInput::Decoded { chunk: None }) {
        SseAction::Continue { events } => assert!(events.is_empty()),
        other => panic!("unexpected action: {other:?}"),
    }
    assert!(!stream.created_emitted);
}

#[test]
fn broken_and_idle_streams_fail() {
    let mut stream = ChatStream::new();
    match process_chat_sse(&mut stream, SseInput::Broken { message: "reset".to_string() }) {
        SseAction::Fail { error } => assert_eq!(error, ApiError::Stream("reset".to_string())),
        other => panic!("unexpected action: {other:?}"),
    }
    match process_chat_sse(&mut stream, SseInput::IdleTimeout) {
        SseAction::Fail { error } => assert_eq!(
            error,
            ApiError::Stream("idle timeout waiting for SSE".to_string())
        ),
        other => panic!("unexpected action: {other:?}"),
    }
}

#[test]
fn the_model_of_the_headers_opens_a_stream() {
    assert_eq!(
        opening_events(Some("gpt".to_string())),
        vec![ResponseEvent::ServerModel("gpt".to_string())]
    );
    assert_eq!(opening_events(None), vec![]);
}

#[test]
fn only_the_largest_index_is_out_of_reach() {
    let with_index = |index: Option<usize>| {
        chunk(
            None,
            None,
            vec![
                choice(Some("x"), None, None),
                choice(None, None, Some(vec![
                    call_delta(Some(1), None, None, None),
                    call_delta(index, None, None, None),
                ])),
            ],
        )
    };
    assert!(chunk_is_addressable(&with_index(None)));
    assert!(chunk_is_addressable(&with_index(Some(usize::MAX - 1))));
    assert!(!chunk_is_addressable(&with_index(Some(usize::MAX))));
    assert!(chunk_is_addressable(&chunk(None, None, vec![])));
}

#[test]
fn a_stream_completes_once_and_finishes_nothing_before_it_is_closed() {
    let mut stream = ChatStream::new();
    let mut all = take(
        &mut stream,
        chunk(None, None, vec![choice(None, None, Some(vec![call_delta(None, Some("c"), Some("ls"), None)]))]),
    );
    assert_eq!(all, vec![ResponseEvent::Created]);
    all.extend(take(&mut stream, chunk(None, None, vec![choice(None, None, None), choice(Some("a"), None, None)])));
    assert_eq!(
        all,
        vec![
            ResponseEvent::Created,
            ResponseEvent::OutputItemAdded(assistant(vec![])),
            ResponseEvent::OutputTextDelta("a".to_string()),
        ]
    );
    all.extend(finish(&mut stream, SseInput::Closed));
    let completed: Vec<usize> = (0..all.len())
        .filter(|&i| matches!(all[i], ResponseEvent::Completed { .. }))
        .collect();
    assert_eq!(completed, vec![all.len() - 1]);
}
