use chat_bridge::protocols::chat::{
    ChatChoice, ChatCompletionMessage, ChatCompletionResponse, ChatMessage, MessageContent,
};
use chat_bridge::protocols::common::{
    ChatLogProbs, CompletionTokensDetails, FunctionCallResponse, Single, TokenLogProb, ToolCall,
    ToolChoice, Usage, UsageInfo,
};
use chat_bridge::protocols::responses::{
    ResponseContentPart, ResponseInput, ResponseInputOutputItem, ResponseOutputItem,
    ResponseReasoningContent, ResponseStatus, ResponseTool, ResponseToolType, ResponsesRequest,
    ResponsesResponse, ResponsesUsage, TextConfig, TextFormat,
};
use chat_bridge::request::responses_to_chat;
use chat_bridge::response::chat_to_responses;

fn call(id: &str, arguments: Option<&str>) -> ToolCall {
    ToolCall {
        id: id.to_string(),
        tool_type: "function".to_string(),
        function: FunctionCallResponse {
            name: format!("run_{}", id),
            arguments: arguments.map(str::to_string),
        },
    }
}

fn choice(content: Option<&str>, reasoning: Option<&str>, calls: Option<Vec<ToolCall>>) -> ChatChoice {
    ChatChoice {
        index: 0,
        message: ChatCompletionMessage {
            role: "assistant".to_string(),
            content: content.map(str::to_string),
            tool_calls: calls,
            reasoning_content: reasoning.map(str::to_string),
        },
        logprobs: None,
        finish_reason: None,
    }
}

fn answer(choices: Vec<ChatChoice>) -> ChatCompletionResponse {
    ChatCompletionResponse {
        id: "chat_1".to_string(),
        created: 1_700_000_000,
        model: "gpt-4".to_string(),
        choices,
        usage: None,
    }
}

fn convert(chat: &ChatCompletionResponse) -> ResponsesResponse {
    chat_to_responses(chat, &ResponsesRequest::default(), None).unwrap()
}

fn log_probs() -> ChatLogProbs {
    ChatLogProbs {
        content: Some(vec![TokenLogProb {
            token: "Hi".to_string(),
            logprob: Single {
                bits: (-0.5f32).to_bits(),
            },
        }]),
    }
}

#[test]
fn an_answer_without_choices_is_refused() {
    let error = chat_to_responses(&answer(vec![]), &ResponsesRequest::default(), None).unwrap_err();
    assert_eq!(error, "Chat response contains no choices");
}

#[test]
fn output_items_in_their_order() {
    let mut only = choice(
        Some("Hi"),
        Some("because"),
        Some(vec![call("c1", Some("{}")), call("c2", None)]),
    );
    only.logprobs = Some(log_probs());
    let response = chat_to_responses(
        &answer(vec![only]),
        &ResponsesRequest::default(),
        Some("resp_1".to_string()),
    )
    .unwrap();
    assert_eq!(response.id, "resp_1");
    assert_eq!(
        response.output,
        vec![
            ResponseOutputItem::Message {
                id: "msg_chat_1".to_string(),
                role: "assistant".to_string(),
                content: vec![ResponseContentPart::OutputText {
                    text: "Hi".to_string(),
                    annotations: vec![],
                    logprobs: Some(log_probs()),
                }],
                status: "completed".to_string(),
            },
            ResponseOutputItem::Reasoning {
                id: "reasoning_chat_1".to_string(),
                summary: vec![],
                content: vec![ResponseReasoningContent::ReasoningText {
                    text: "because".to_string()
                }],
                status: Some("completed".to_string()),
            },
            ResponseOutputItem::FunctionToolCall {
                id: "c1".to_string(),
                call_id: "c1".to_string(),
                name: "run_c1".to_string(),
                arguments: "{}".to_string(),
                output: None,
                status: "in_progress".to_string(),
            },
            ResponseOutputItem::FunctionToolCall {
                id: "c2".to_string(),
                call_id: "c2".to_string(),
                name: "run_c2".to_string(),
                arguments: String::new(),
                output: None,
                status: "in_progress".to_string(),
            },
        ]
    );
}

#[test]
fn empty_texts_give_no_items() {
    let response = convert(&answer(vec![choice(Some(""), Some(""), Some(vec![]))]));
    assert_eq!(response.output, vec![]);
    let response = convert(&answer(vec![choice(None, None, None)]));
    assert_eq!(response.output, vec![]);
}

#[test]
fn finish_reasons() {
    let status = |reason: Option<&str>| {
        let mut only = choice(Some("Hi"), None, None);
        only.finish_reason = reason.map(str::to_string);
        convert(&answer(vec![only])).status
    };
    assert_eq!(status(Some("stop")), ResponseStatus::Completed);
    assert_eq!(status(Some("length")), ResponseStatus::Completed);
    assert_eq!(status(Some("tool_calls")), ResponseStatus::InProgress);
    assert_eq!(status(Some("failed")), ResponseStatus::Failed);
    assert_eq!(status(Some("error")), ResponseStatus::Failed);
    assert_eq!(status(Some("content_filter")), ResponseStatus::Completed);
    assert_eq!(status(None), ResponseStatus::Completed);
}

#[test]
fn token_counts() {
    let mut chat = answer(vec![choice(Some("Hi"), None, None)]);
    assert_eq!(convert(&chat).usage, None);
    let classic = |reasoning_tokens: Option<u32>| {
        Some(ResponsesUsage::Classic(UsageInfo {
            prompt_tokens: 10,
            completion_tokens: 5,
            total_tokens: 15,
            reasoning_tokens,
            prompt_tokens_details: None,
        }))
    };
    let usage = |completion_tokens_details: Option<CompletionTokensDetails>| {
        Some(Usage {
            prompt_tokens: 10,
            completion_tokens: 5,
            total_tokens: 15,
            completion_tokens_details,
        })
    };
    chat.usage = usage(None);
    assert_eq!(convert(&chat).usage, classic(None));
    chat.usage = usage(Some(CompletionTokensDetails {
        reasoning_tokens: Some(3),
    }));
    assert_eq!(convert(&chat).usage, classic(Some(3)));
}

#[test]
fn creation_times() {
    let created_at = |created: u64| {
        let mut chat = answer(vec![choice(Some("Hi"), None, None)]);
        chat.created = created;
        convert(&chat).created_at
    };
    assert_eq!(created_at(0), 0);
    assert_eq!(created_at(1_700_000_000), 1_700_000_000);
    assert_eq!(created_at(i64::MAX as u64), i64::MAX);
    assert_eq!(created_at(i64::MAX as u64 + 1), i64::MIN);
    assert_eq!(created_at(u64::MAX), -1);
}

#[test]
fn only_the_first_choice_counts() {
    let one = convert(&answer(vec![choice(Some("Hi"), None, None)]));
    let two = convert(&answer(vec![
        choice(Some("Hi"), None, None),
        choice(Some("Bye"), Some("hm"), Some(vec![call("c9", None)])),
    ]));
    assert_eq!(one, two);
}

#[test]
fn a_given_id_replaces_only_the_id() {
    let chat = answer(vec![choice(Some("Hi"), None, None)]);
    let own = convert(&chat);
    assert_eq!(own.id, "chat_1");
    let given = chat_to_responses(
        &chat,
        &ResponsesRequest::default(),
        Some("resp_7".to_string()),
    )
    .unwrap();
    assert_eq!(
        given,
        ResponsesResponse {
            id: "resp_7".to_string(),
            ..own
        }
    );
}

#[test]
fn settings_are_taken_from_the_request() {
    let tool = || ResponseTool {
        tool_type: ResponseToolType::Mcp,
        function: None,
        server_url: Some("https://tools.example".to_string()),
        server_label: Some("tools".to_string()),
    };
    let request = ResponsesRequest {
        input: ResponseInput::Text("hi".to_string()),
        model: "asked".to_string(),
        conversation: None,
        instructions: Some("Be brief.".to_string()),
        max_output_tokens: Some(64),
        parallel_tool_calls: Some(true),
        previous_response_id: Some("resp_0".to_string()),
        stream: None,
        temperature: Some(Single {
            bits: 0.5f32.to_bits(),
        }),
        text: Some(TextConfig {
            format: Some(TextFormat::Text),
        }),
        tool_choice: Some(ToolChoice::Function {
            name: "f".to_string(),
        }),
        tools: Some(vec![tool()]),
        top_logprobs: None,
        top_p: Some(Single {
            bits: 1.0f32.to_bits(),
        }),
    };
    let response =
        chat_to_responses(&answer(vec![choice(None, None, None)]), &request, None).unwrap();
    assert_eq!(
        response,
        ResponsesResponse {
            id: "chat_1".to_string(),
            model: "gpt-4".to_string(),
            created_at: 1_700_000_000,
            status: ResponseStatus::Completed,
            output: vec![],
            instructions: Some("Be brief.".to_string()),
            max_output_tokens: Some(64),
            parallel_tool_calls: Some(true),
            previous_response_id: Some("resp_0".to_string()),
            temperature: Some(Single {
                bits: 0.5f32.to_bits()
            }),
            text: Some(TextConfig {
                format: Some(TextFormat::Text)
            }),
            tool_choice: Some(ToolChoice::Function {
                name: "f".to_string()
            }),
            tools: Some(vec![tool()]),
            top_p: Some(Single {
                bits: 1.0f32.to_bits()
            }),
            usage: None,
        }
    );
}

#[test]
fn the_builder_keeps_what_is_not_given() {
    let response = ResponsesResponse::builder("r", "m")
        .maybe_text(Some(TextConfig { format: None }))
        .maybe_text(None)
        .maybe_usage(None)
        .build();
    assert_eq!(response.text, Some(TextConfig { format: None }));
    assert_eq!(response.usage, None);
    assert_eq!(response.status, ResponseStatus::InProgress);
}

#[test]
fn output_can_be_handed_back() {
    let response = convert(&answer(vec![choice(
        Some("Hi"),
        Some("because"),
        Some(vec![call("c1", Some("{}"))]),
    )]));
    let items = response
        .output
        .into_iter()
        .map(|item| match item {
            ResponseOutputItem::Message {
                id,
                role,
                content,
                status,
            } => ResponseInputOutputItem::Message {
                id,
                role,
                content,
                status: Some(status),
            },
            ResponseOutputItem::Reasoning {
                id,
                summary,
                content,
                status,
            } => ResponseInputOutputItem::Reasoning {
                id,
                summary,
                content,
                status,
            },
            ResponseOutputItem::FunctionToolCall {
                id,
                call_id,
                name,
                arguments,
                output,
                status,
            } => ResponseInputOutputItem::FunctionToolCall {
                id: Some(id),
                call_id,
                name,
                arguments,
                output,
                status: Some(status),
            },
        })
        .collect();
    let request = ResponsesRequest {
        input: ResponseInput::Items(items),
        ..Default::default()
    };
    assert_eq!(
        responses_to_chat(&request).unwrap().messages,
        vec![
            ChatMessage::Assistant {
                content: Some(MessageContent::Text("Hi".to_string())),
                name: None,
                tool_calls: None,
                reasoning_content: None,
            },
            ChatMessage::Assistant {
                content: None,
                name: None,
                tool_calls: None,
                reasoning_content: Some("because".to_string()),
            },
            ChatMessage::Assistant {
                content: None,
                name: None,
                tool_calls: Some(vec![call("c1", Some("{}"))]),
                reasoning_content: None,
            },
        ]
    );
}
