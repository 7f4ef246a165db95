use agentgateway::llm::anthropic::stream::StreamState;
use agentgateway::llm::anthropic::types::{
    ContentBlock, ContentBlockDelta, MessageDelta, MessageDeltaUsage, MessagesError,
    MessagesErrorResponse, MessagesResponse, MessagesStreamEvent, Role, StopReason, ToolChoice, Usage,
};
use agentgateway::llm::anthropic::{
    translate_error, translate_request, translate_response, translate_response_at,
    translate_stop_reason, Provider, DEFAULT_HOST_STR, DEFAULT_PATH, NAME,
};
use agentgateway::llm::universal;
use agentgateway::llm::{created_from, AIError, LLMResponse};
use agentgateway::strng::new;

fn message(role: universal::Role, content: Option<&str>) -> universal::RequestMessage {
    universal::RequestMessage { role, content: content.map(|s| s.to_string()) }
}

fn request(model: &str, messages: Vec<universal::RequestMessage>) -> universal::Request {
    universal::Request {
        model: model.to_string(),
        messages,
        tools: None,
        tool_choice: None,
        max_tokens: None,
        stop: None,
        stream: None,
        temperature: None,
        top_p: None,
        user: None,
    }
}

fn response(content: Vec<ContentBlock>, stop_reason: Option<StopReason>, input: usize, output: usize) -> MessagesResponse {
    MessagesResponse {
        id: "msg_1".to_string(),
        kind: "message".to_string(),
        role: Role::Assistant,
        content,
        model: "model-a".to_string(),
        stop_reason,
        stop_sequence: None,
        usage: Usage { input_tokens: input, output_tokens: output },
    }
}

fn text_of(m: &agentgateway::llm::anthropic::types::Message) -> String {
    assert_eq!(m.content.len(), 1);
    match &m.content[0] {
        ContentBlock::Text { text } => text.clone(),
        _ => panic!("not a text block"),
    }
}

fn delta(text: &str) -> Result<MessagesStreamEvent, String> {
    Ok(MessagesStreamEvent::ContentBlockDelta {
        index: 0,
        delta: ContentBlockDelta::TextDelta { text: text.to_string() },
    })
}

fn message_start(id: &str, model: &str, input: usize, output: usize) -> Result<MessagesStreamEvent, String> {
    Ok(MessagesStreamEvent::MessageStart {
        message: MessagesResponse {
            id: id.to_string(),
            kind: "message".to_string(),
            role: Role::Assistant,
            content: vec![],
            model: model.to_string(),
            stop_reason: None,
            stop_sequence: None,
            usage: Usage { input_tokens: input, output_tokens: output },
        },
    })
}

fn message_delta(output: usize) -> Result<MessagesStreamEvent, String> {
    Ok(MessagesStreamEvent::MessageDelta {
        delta: MessageDelta { stop_reason: Some(StopReason::EndTurn), stop_sequence: None },
        usage: MessageDeltaUsage { output_tokens: output },
    })
}

#[test]
fn request_translation_scenario() {
    let mut req = request(
        "m",
        vec![
            message(universal::Role::System, Some("s1")),
            message(universal::Role::System, Some("s2")),
            message(universal::Role::User, Some("hi")),
        ],
    );
    req.max_tokens = Some(10);
    let out = translate_request(req);
    assert_eq!(out.system, "s1\ns2");
    assert_eq!(out.messages.len(), 1);
    assert_eq!(out.messages[0].role, Role::User);
    assert_eq!(text_of(&out.messages[0]), "hi");
    assert_eq!(out.model, "m");
    assert_eq!(out.max_tokens, 10);
    assert!(!out.stream);
    assert!(out.stop_sequences.is_empty());
    assert!(out.temperature.is_none());
    assert!(out.top_p.is_none());
    assert!(out.top_k.is_none());
    assert!(out.tools.is_none());
    assert!(out.tool_choice.is_none());
    assert!(out.metadata.is_none());
}

#[test]
fn request_roles_collapse_to_user_and_assistant() {
    let req = request(
        "m",
        vec![
            message(universal::Role::User, Some("u")),
            message(universal::Role::Assistant, Some("a")),
            message(universal::Role::Tool, Some("t")),
            message(universal::Role::System, Some("s")),
            message(universal::Role::Assistant, None),
            message(universal::Role::System, None),
        ],
    );
    let out = translate_request(req);
    assert_eq!(out.system, "s");
    let got: Vec<(Role, String)> = out.messages.iter().map(|m| (m.role, text_of(m))).collect();
    assert_eq!(
        got,
        vec![
            (Role::User, "u".to_string()),
            (Role::Assistant, "a".to_string()),
            (Role::User, "t".to_string()),
        ]
    );
}

#[test]
fn request_without_system_messages_has_empty_system() {
    let out = translate_request(request("m", vec![message(universal::Role::User, Some("hi"))]));
    assert_eq!(out.system, "");
    assert_eq!(out.max_tokens, 4096);
    assert_eq!(universal::DEFAULT_MAX_TOKENS, 4096);
}

#[test]
fn request_settings_are_carried_over() {
    let mut req = request("m", vec![]);
    req.stream = Some(true);
    req.temperature = Some(universal::Real32 { bits: 0.5f32.to_bits() });
    req.top_p = Some(universal::Real32 { bits: 0.9f32.to_bits() });
    req.stop = Some(universal::Stop::StringArray(vec!["a".to_string(), "b".to_string()]));
    req.user = Some("alice".to_string());
    let out = translate_request(req);
    assert!(out.stream);
    assert_eq!(f32::from_bits(out.temperature.unwrap().bits), 0.5);
    assert_eq!(f32::from_bits(out.top_p.unwrap().bits), 0.9);
    assert_eq!(out.stop_sequences, vec!["a".to_string(), "b".to_string()]);
    let metadata = out.metadata.unwrap();
    assert_eq!(metadata.fields.len(), 1);
    assert_eq!(metadata.fields.get(&"user_id".to_string()), Some(&"alice".to_string()));
    assert!(out.messages.is_empty());
}

#[test]
fn request_single_stop_string() {
    let mut req = request("m", vec![]);
    req.stop = Some(universal::Stop::String("END".to_string()));
    assert_eq!(universal::stop_sequence(&req), vec!["END".to_string()]);
    assert_eq!(universal::max_tokens(&req), 4096);
    req.max_tokens = Some(7);
    assert_eq!(universal::max_tokens(&req), 7);
    assert_eq!(translate_request(req).stop_sequences, vec!["END".to_string()]);
}

#[test]
fn request_tools_are_mapped_one_to_one() {
    let mut params = serde_json::Map::new();
    params.insert("type".to_string(), serde_json::Value::String("object".to_string()));
    let mut req = request("m", vec![]);
    req.tools = Some(vec![
        universal::Tool {
            function: universal::FunctionObject {
                name: "lookup".to_string(),
                description: Some("finds things".to_string()),
                parameters: Some(serde_json::Value::Object(params.clone())),
            },
        },
        universal::Tool {
            function: universal::FunctionObject {
                name: "bare".to_string(),
                description: None,
                parameters: None,
            },
        },
    ]);
    let out = translate_request(req);
    let tools = out.tools.unwrap();
    assert_eq!(tools.len(), 2);
    assert_eq!(tools[0].name, "lookup");
    assert_eq!(tools[0].description, Some("finds things".to_string()));
    assert_eq!(tools[0].input_schema, serde_json::Value::Object(params));
    assert_eq!(tools[1].name, "bare");
    assert_eq!(tools[1].description, None);
    assert_eq!(tools[1].input_schema, serde_json::Value::Object(serde_json::Map::new()));
    assert_eq!(serde_json::to_string(&tools[1].input_schema).unwrap(), "{}");
}

#[test]
fn request_tool_choice_is_mapped() {
    let cases = vec![
        (universal::ToolChoiceOption::Auto, "auto"),
        (universal::ToolChoiceOption::Required, "any"),
        (universal::ToolChoiceOption::NoTools, "none"),
        (universal::ToolChoiceOption::Named("f".to_string()), "tool:f"),
    ];
    for (choice, expected) in cases {
        let mut req = request("m", vec![]);
        req.tool_choice = Some(choice);
        let got = match translate_request(req).tool_choice.unwrap() {
            ToolChoice::Auto => "auto".to_string(),
            ToolChoice::Any => "any".to_string(),
            ToolChoice::NoTools => "none".to_string(),
            ToolChoice::Tool { name } => format!("tool:{name}"),
        };
        assert_eq!(got, expected);
    }
}

#[test]
fn provider_model_override_replaces_the_callers_model() {
    let with = Provider { model: Some(new("override")) };
    let out = match with.process_request(request("m", vec![message(universal::Role::User, Some("hi"))])) {
        Ok(out) => out,
        Err(_) => panic!("translation does not fail"),
    };
    assert_eq!(out.model, "override");
    assert_eq!(out.messages.len(), 1);
    let without = Provider { model: None };
    let out = match without.process_request(request("m", vec![])) {
        Ok(out) => out,
        Err(_) => panic!("translation does not fail"),
    };
    assert_eq!(out.model, "m");
}

#[test]
fn provider_constants() {
    assert_eq!(NAME, "anthropic");
    assert_eq!(DEFAULT_HOST_STR, "api.anthropic.com");
    assert_eq!(DEFAULT_PATH, "/v1/messages");
}

#[test]
fn stop_reasons_map_to_finish_reasons() {
    assert_eq!(translate_stop_reason(&StopReason::EndTurn), universal::FinishReason::Stop);
    assert_eq!(translate_stop_reason(&StopReason::MaxTokens), universal::FinishReason::Length);
    assert_eq!(translate_stop_reason(&StopReason::StopSequence), universal::FinishReason::Stop);
    assert_eq!(translate_stop_reason(&StopReason::ToolUse), universal::FinishReason::ToolCalls);
    assert_eq!(translate_stop_reason(&StopReason::Refusal), universal::FinishReason::ContentFilter);
}

#[test]
fn response_translation_takes_first_text_and_tool_calls() {
    let mut input = serde_json::Map::new();
    input.insert("q".to_string(), serde_json::Value::String("x".to_string()));
    let resp = response(
        vec![
            ContentBlock::Image {
                source: "base64".to_string(),
                media_type: "image/png".to_string(),
                data: "AAAA".to_string(),
            },
            ContentBlock::Text { text: "first".to_string() },
            ContentBlock::ToolUse {
                id: "call_1".to_string(),
                name: "lookup".to_string(),
                input: serde_json::Value::Object(input),
            },
            ContentBlock::Text { text: "second".to_string() },
            ContentBlock::ToolResult { tool_use_id: "call_1".to_string(), content: "r".to_string() },
        ],
        Some(StopReason::ToolUse),
        7,
        5,
    );
    let out = translate_response_at(resp, 1234);
    assert_eq!(out.id, "msg_1");
    assert_eq!(out.object, "chat.completion");
    assert_eq!(out.created, 1234);
    assert_eq!(out.model, "model-a");
    assert!(out.service_tier.is_none());
    assert!(out.system_fingerprint.is_none());
    assert_eq!(
        out.usage,
        Some(universal::Usage { prompt_tokens: 7, completion_tokens: 5, total_tokens: 12 })
    );
    assert_eq!(out.choices.len(), 1);
    let choice = &out.choices[0];
    assert_eq!(choice.index, 0);
    assert_eq!(choice.finish_reason, Some(universal::FinishReason::ToolCalls));
    assert!(choice.logprobs.is_none());
    assert_eq!(choice.message.role, universal::Role::Assistant);
    assert_eq!(choice.message.content, Some("first".to_string()));
    assert!(choice.message.refusal.is_none());
    let calls = choice.message.tool_calls.as_ref().unwrap();
    assert_eq!(calls.len(), 1);
    assert_eq!(calls[0].id, "call_1");
    assert_eq!(calls[0].kind, universal::ToolType::Function);
    assert_eq!(calls[0].function.name, "lookup");
    assert_eq!(calls[0].function.arguments, "{\"q\":\"x\"}");
}

#[test]
fn response_without_content_blocks_has_null_content() {
    let out = translate_response_at(response(vec![], None, 0, 0), 0);
    assert_eq!(out.choices.len(), 1);
    assert_eq!(out.choices[0].message.content, None);
    assert!(out.choices[0].message.tool_calls.is_none());
    assert_eq!(out.choices[0].finish_reason, None);
}

#[test]
fn response_usage_keeps_the_low_32_bits() {
    let big = (1usize << 32) + 5;
    let out = translate_response_at(response(vec![], Some(StopReason::EndTurn), big, 4), 9);
    assert_eq!(
        out.usage,
        Some(universal::Usage { prompt_tokens: 5, completion_tokens: 4, total_tokens: 9 })
    );
}

#[test]
fn response_is_stamped_with_the_present_time() {
    let before = std::time::SystemTime::now()
        .duration_since(std::time::UNIX_EPOCH)
        .unwrap()
        .as_secs();
    let out = translate_response(response(
        vec![ContentBlock::Text { text: "hi".to_string() }],
        Some(StopReason::EndTurn),
        1,
        2,
    ));
    let after = std::time::SystemTime::now()
        .duration_since(std::time::UNIX_EPOCH)
        .unwrap()
        .as_secs();
    assert!(before as u32 <= out.created && out.created <= after as u32);
    assert_eq!(out.choices[0].message.content, Some("hi".to_string()));
    assert_eq!(out.choices[0].finish_reason, Some(universal::FinishReason::Stop));
}

#[test]
fn created_is_the_timestamp_modulo_two_to_the_32() {
    assert_eq!(created_from(0), 0);
    assert_eq!(created_from(1_700_000_000), 1_700_000_000);
    assert_eq!(created_from((1i64 << 32) + 3), 3);
    assert_eq!(created_from(-1), u32::MAX);
    assert_eq!(created_from(i64::MIN), 0);
    assert_eq!(created_from(i64::MAX), u32::MAX);
}

#[test]
fn round_trip_keeps_model_roles_and_text() {
    let req = request(
        "m",
        vec![
            message(universal::Role::System, Some("be brief")),
            message(universal::Role::User, Some("hello")),
            message(universal::Role::Assistant, Some("hi there")),
        ],
    );
    let sent = translate_request(req);
    let roles: Vec<Role> = sent.messages.iter().map(|m| m.role).collect();
    assert_eq!(roles, vec![Role::User, Role::Assistant]);
    let mut texts = Vec::new();
    for m in sent.messages {
        let echoed = MessagesResponse {
            id: "id".to_string(),
            kind: "message".to_string(),
            role: m.role,
            content: m.content,
            model: sent.model.clone(),
            stop_reason: Some(StopReason::EndTurn),
            stop_sequence: None,
            usage: Usage { input_tokens: 1, output_tokens: 1 },
        };
        let back = translate_response_at(echoed, 0);
        assert_eq!(back.model, "m");
        assert!(back.choices[0].message.tool_calls.is_none());
        texts.push(back.choices[0].message.content.clone().unwrap());
    }
    assert_eq!(texts, vec!["hello".to_string(), "hi there".to_string()]);
}

#[test]
fn error_translation_wraps_the_message() {
    let resp = MessagesErrorResponse {
        kind: "error".to_string(),
        error: MessagesError { kind: "overloaded_error".to_string(), message: "busy".to_string() },
    };
    let out = match translate_error(resp) {
        Ok(out) => out,
        Err(_) => panic!("translation does not fail"),
    };
    assert_eq!(out.error.kind, "invalid_request_error");
    assert_eq!(out.error.message, "busy");
    assert!(out.error.param.is_none());
    assert!(out.error.code.is_none());
    assert!(out.error.event_id.is_none());
    assert!(out.event_id.is_none());
}

#[test]
fn unreadable_bodies_become_response_parsing_errors() {
    let provider = Provider { model: None };
    let e = serde_json::from_str::<serde_json::Value>("{not json").unwrap_err();
    let text = e.to_string();
    match provider.process_response(Err(e)) {
        Err(AIError::ResponseParsing(f)) => assert_eq!(f.to_string(), text),
        Ok(_) => panic!("an unreadable body gives no response"),
    }
    let e = serde_json::from_str::<serde_json::Value>("[").unwrap_err();
    let text = e.to_string();
    match provider.process_error(Err(e)) {
        Err(AIError::ResponseParsing(f)) => assert_eq!(f.to_string(), text),
        Ok(_) => panic!("an unreadable body gives no response"),
    }
}

#[test]
fn readable_bodies_are_translated() {
    let provider = Provider { model: None };
    let out = match provider.process_response(Ok(response(
        vec![ContentBlock::Text { text: "ok".to_string() }],
        Some(StopReason::MaxTokens),
        2,
        3,
    ))) {
        Ok(out) => out,
        Err(_) => panic!("a readable body gives a response"),
    };
    assert_eq!(out.choices[0].message.content, Some("ok".to_string()));
    assert_eq!(out.choices[0].finish_reason, Some(universal::FinishReason::Length));
    assert_eq!(out.usage.unwrap().total_tokens, 5);
    let out = match provider.process_error(Ok(MessagesErrorResponse {
        kind: "error".to_string(),
        error: MessagesError { kind: "x".to_string(), message: "bad key".to_string() },
    })) {
        Ok(out) => out,
        Err(_) => panic!("a readable body gives a response"),
    };
    assert_eq!(out.error.message, "bad key");
}

#[test]
fn stream_scenario() {
    let frames = vec![
        message_start("r", "m", 3, 0),
        delta("he"),
        delta("llo"),
        message_delta(2),
        Ok(MessagesStreamEvent::MessageStop),
    ];
    let mut log = LLMResponse::new();
    let mut state = StreamState::new(42);
    let chunks = state.translate_all(&mut log, frames);
    assert_eq!(chunks.len(), 3);
    let mut content = String::new();
    for c in &chunks {
        assert_eq!(c.id, "r");
        assert_eq!(c.model, "m");
        assert_eq!(c.object, "chat.completion.chunk");
        assert_eq!(c.created, 42);
        assert!(c.system_fingerprint.is_none());
        assert!(c.service_tier.is_none());
        for choice in &c.choices {
            assert_eq!(choice.index, 0);
            assert!(choice.finish_reason.is_none());
            content.push_str(choice.delta.content.as_deref().unwrap_or(""));
        }
    }
    assert_eq!(content, "hello");
    assert_eq!(chunks[0].choices.len(), 1);
    assert!(chunks[0].usage.is_none());
    assert_eq!(chunks[1].choices.len(), 1);
    assert!(chunks[2].choices.is_empty());
    assert_eq!(
        chunks[2].usage,
        Some(universal::Usage { prompt_tokens: 3, completion_tokens: 2, total_tokens: 5 })
    );
    assert!(log.first_token.is_some());
    assert_eq!(log.output_tokens, Some(2));
    assert_eq!(log.input_tokens_from_response, Some(3));
    assert_eq!(log.total_tokens, Some(5));
    assert_eq!(log.provider_model, Some(new("m")));
    assert!(state.saw_token);
}

#[test]
fn stream_first_token_is_set_once() {
    let mut log = LLMResponse::new();
    let mut state = StreamState::new(0);
    assert!(state.on_event(&mut log, message_start("r", "m", 1, 0)).is_none());
    assert!(log.first_token.is_none());
    assert!(state.on_event::<String>(&mut log, Ok(MessagesStreamEvent::Ping)).is_none());
    assert!(log.first_token.is_none());
    assert!(state.on_event(&mut log, delta("a")).is_some());
    let first = log.first_token;
    assert!(first.is_some());
    assert!(state.on_event(&mut log, delta("b")).is_some());
    assert_eq!(log.first_token, first);
}

#[test]
fn stream_without_deltas_sets_no_first_token() {
    let mut log = LLMResponse::new();
    let mut state = StreamState::new(0);
    let chunks = state.translate_all(
        &mut log,
        vec![
            message_start("r", "m", 1, 0),
            Ok(MessagesStreamEvent::ContentBlockStart {
                index: 0,
                content_block: ContentBlock::Text { text: "ignored".to_string() },
            }),
            Ok(MessagesStreamEvent::ContentBlockStop { index: 0 }),
            Ok(MessagesStreamEvent::Ping),
            Ok(MessagesStreamEvent::MessageStop),
        ],
    );
    assert!(chunks.is_empty());
    assert!(log.first_token.is_none());
    assert!(!state.saw_token);
    assert_eq!(log.total_tokens, None);
}

#[test]
fn stream_drops_unreadable_frames() {
    let mut log = LLMResponse::new();
    let mut state = StreamState::new(0);
    let chunks = state.translate_all(
        &mut log,
        vec![Err("bad json".to_string()), delta("x"), Err("bad again".to_string()), delta("y")],
    );
    assert_eq!(chunks.len(), 2);
    assert_eq!(chunks[0].id, "unknown");
    assert_eq!(chunks[0].model, "");
    assert_eq!(chunks[0].choices[0].delta.content, Some("x".to_string()));
    assert_eq!(chunks[1].choices[0].delta.content, Some("y".to_string()));
    assert!(chunks[0].choices[0].delta.role.is_none());
    assert!(chunks[0].choices[0].delta.refusal.is_none());
    assert!(chunks[0].choices[0].delta.tool_calls.is_none());
}

#[test]
fn stream_message_delta_without_start_leaves_total_unset() {
    let mut log = LLMResponse::new();
    let mut state = StreamState::new(0);
    let chunk = state.on_event(&mut log, message_delta(4)).unwrap();
    assert_eq!(log.output_tokens, Some(4));
    assert_eq!(log.total_tokens, None);
    assert_eq!(
        chunk.usage,
        Some(universal::Usage { prompt_tokens: 0, completion_tokens: 4, total_tokens: 4 })
    );
}

#[test]
fn provider_translates_a_whole_stream() {
    let provider = Provider { model: None };
    let mut log = LLMResponse::new();
    let chunks = provider.process_streaming(
        &mut log,
        vec![message_start("id1", "model1", 10, 1), delta("a"), delta("b"), message_delta(7)],
    );
    assert_eq!(chunks.len(), 3);
    assert_eq!(chunks[0].created, chunks[2].created);
    assert_eq!(chunks[2].usage.unwrap().total_tokens, 17);
    assert_eq!(log.total_tokens, Some(17));
    assert!(log.first_token.is_some());
    let start = StreamState::start();
    assert!(!start.saw_token);
    assert!(start.message_id.is_none());
    assert_eq!(start.input_tokens, 0);
}

#[test]
fn sse_frames_are_read_across_pieces() {
    let mut d = agentgateway::sse::SseDecoder::new();
    assert!(d.push(b"event: message_start\nda").is_empty());
    assert!(d.push(b"ta: {\"a\":1}\r\n").is_empty());
    assert_eq!(d.push(b"\r\n: a comment\ndata:x\ndata: y\n\n\n"), vec![b"{\"a\":1}".to_vec(), b"x\ny".to_vec()]);
    assert!(d.push(b"data: finished later").is_empty());
    assert_eq!(d.push(b"\nid: 7\n\n"), vec![b"finished later".to_vec()]);
    assert!(d.push(b"id: 8\n\n").is_empty());
    assert_eq!(d.push(b"data:  two spaces\n\ndata\n\n"), vec![b" two spaces".to_vec()]);
    assert_eq!(d.push(b"data:\n\n"), vec![b"".to_vec()]);
}

#[test]
fn sse_frame_round_trip() {
    let frame = agentgateway::sse::encode_frame(b"{\"id\":\"r\"}");
    assert_eq!(frame, b"data: {\"id\":\"r\"}\n\n".to_vec());
    let mut d = agentgateway::sse::SseDecoder::new();
    assert_eq!(d.push(&frame), vec![b"{\"id\":\"r\"}".to_vec()]);
    let mut whole = agentgateway::sse::encode_frame(b"1");
    whole.extend(agentgateway::sse::encode_frame(b""));
    whole.extend(agentgateway::sse::encode_frame(b" 3"));
    let mut one = agentgateway::sse::SseDecoder::new();
    let at_once = one.push(&whole);
    assert_eq!(at_once, vec![b"1".to_vec(), b"".to_vec(), b" 3".to_vec()]);
    let mut two = agentgateway::sse::SseDecoder::new();
    let mut by_byte = Vec::new();
    for b in &whole {
        by_byte.extend(two.push(&[*b]));
    }
    assert_eq!(by_byte, at_once);
}
