use chat_bridge::content::{
    convert_content_parts, extract_text_from_content, function_call_output_to_message_content,
    response_content_part_to_chat,
};
use chat_bridge::protocols::chat::{ChatCompletionRequest, ChatMessage, MessageContent};
use chat_bridge::protocols::common::{
    ContentPart, FunctionCallResponse, FunctionDefinition, ImageUrl, Json, JsonSchemaFormat,
    ResponseFormat, Single, StreamOptions, Tool, ToolCall, ToolChoice,
};
use chat_bridge::protocols::responses::{
    FunctionCallOutputContent, ResponseContentPart, ResponseImageUrlValue, ResponseInput,
    ResponseInputOutputItem, ResponseReasoningContent, ResponseTool, ResponseToolType,
    ResponsesRequest, StringOrContentParts, TextConfig, TextFormat,
};
use chat_bridge::protocols::UNKNOWN_MODEL_ID;
use chat_bridge::request::{map_text_to_response_format, responses_to_chat, role_to_chat_message};
use chat_bridge::text::{join, same_text};
use chat_bridge::tools::extract_tools_from_response_tools;

fn single(value: f32) -> Single {
    Single {
        bits: value.to_bits(),
    }
}

fn input_text(text: &str) -> ResponseContentPart {
    ResponseContentPart::InputText {
        text: text.to_string(),
    }
}

fn image(url: &str, own: Option<&str>, detail: Option<&str>) -> ResponseContentPart {
    ResponseContentPart::InputImage {
        image_url: ResponseImageUrlValue::Object {
            url: url.to_string(),
            detail: own.map(str::to_string),
        },
        detail: detail.map(str::to_string),
    }
}

fn chat_image(url: &str, detail: &str) -> ContentPart {
    ContentPart::ImageUrl {
        image_url: ImageUrl {
            url: url.to_string(),
            detail: Some(detail.to_string()),
        },
    }
}

fn plain(text: &str) -> MessageContent {
    MessageContent::Text(text.to_string())
}

fn items(items: Vec<ResponseInputOutputItem>) -> ResponsesRequest {
    ResponsesRequest {
        input: ResponseInput::Items(items),
        ..Default::default()
    }
}

fn simple(role: &str, content: StringOrContentParts) -> ResponseInputOutputItem {
    ResponseInputOutputItem::SimpleInputMessage {
        content,
        role: role.to_string(),
        message_type: None,
    }
}

fn function(name: &str) -> FunctionDefinition {
    FunctionDefinition {
        name: name.to_string(),
        description: Some(format!("runs {}", name)),
        parameters: Json {
            text: "{\"type\":\"object\"}".to_string(),
        },
        strict: Some(true),
    }
}

fn tool(tool_type: ResponseToolType, function: Option<FunctionDefinition>) -> ResponseTool {
    ResponseTool {
        tool_type,
        function,
        server_url: None,
        server_label: None,
    }
}

fn call_message(call_id: &str, name: &str, arguments: &str) -> ChatMessage {
    ChatMessage::Assistant {
        content: None,
        name: None,
        tool_calls: Some(vec![ToolCall {
            id: call_id.to_string(),
            tool_type: "function".to_string(),
            function: FunctionCallResponse {
                name: name.to_string(),
                arguments: Some(arguments.to_string()),
            },
        }]),
        reasoning_content: None,
    }
}

#[test]
fn test_text_input_conversion() {
    let req = ResponsesRequest {
        input: ResponseInput::Text("Hello, world!".to_string()),
        instructions: Some("You are a helpful assistant.".to_string()),
        model: "gpt-4".to_string(),
        temperature: Some(single(0.7)),
        ..Default::default()
    };

    let chat_req = responses_to_chat(&req).unwrap();
    assert_eq!(chat_req.messages.len(), 2); // system + user
    assert_eq!(chat_req.model, "gpt-4");
    assert_eq!(chat_req.temperature, Some(single(0.7)));
    assert_eq!(
        chat_req.temperature.map(|t| f32::from_bits(t.bits)),
        Some(0.7)
    );
}

#[test]
fn test_items_input_conversion() {
    let req = ResponsesRequest {
        input: ResponseInput::Items(vec![
            ResponseInputOutputItem::Message {
                id: "msg_1".to_string(),
                role: "user".to_string(),
                content: vec![ResponseContentPart::InputText {
                    text: "Hello!".to_string(),
                }],
                status: None,
            },
            ResponseInputOutputItem::Message {
                id: "msg_2".to_string(),
                role: "assistant".to_string(),
                content: vec![ResponseContentPart::OutputText {
                    text: "Hi there!".to_string(),
                    annotations: vec![],
                    logprobs: None,
                }],
                status: None,
            },
        ]),
        ..Default::default()
    };

    let chat_req = responses_to_chat(&req).unwrap();
    assert_eq!(chat_req.messages.len(), 2); // user + assistant
}

#[test]
fn test_empty_input_error() {
    let req = ResponsesRequest {
        input: ResponseInput::Text("".to_string()),
        ..Default::default()
    };

    // Empty text should still create a user message, so this should succeed
    let result = responses_to_chat(&req);
    assert!(result.is_ok());
}

/// The assistant's call and the tool message have to carry the same id, and `call_id` is the one
/// that names the call in both items.
#[test]
fn test_function_call_output_correlates_via_call_id_not_id() {
    let req = ResponsesRequest {
        input: ResponseInput::Items(vec![
            ResponseInputOutputItem::FunctionToolCall {
                id: Some("fc1".to_string()),
                call_id: "c1".to_string(),
                name: "view_image".to_string(),
                arguments: "{}".to_string(),
                output: None,
                status: Some("in_progress".to_string()),
            },
            ResponseInputOutputItem::FunctionCallOutput {
                id: None,
                call_id: "c1".to_string(),
                output: FunctionCallOutputContent::Text("done".to_string()),
                status: None,
            },
        ]),
        ..Default::default()
    };

    let chat_req = responses_to_chat(&req).unwrap();
    assert_eq!(chat_req.messages.len(), 2);

    let ChatMessage::Assistant { tool_calls, .. } = &chat_req.messages[0] else {
        panic!("expected assistant message, got {:?}", chat_req.messages[0]);
    };
    let tool_call_id = &tool_calls.as_ref().unwrap()[0].id;

    let ChatMessage::Tool {
        tool_call_id: output_tool_call_id,
        ..
    } = &chat_req.messages[1]
    else {
        panic!("expected tool message, got {:?}", chat_req.messages[1]);
    };

    // Both must key off call_id ("c1"), not id ("fc1").
    assert_eq!(tool_call_id, "c1");
    assert_eq!(output_tool_call_id, "c1");
    assert_eq!(tool_call_id, output_tool_call_id);
}

/// An image beside a text is kept as a part of its own.
#[test]
fn test_message_with_input_image_preserves_image() {
    let req = ResponsesRequest {
        input: ResponseInput::Items(vec![ResponseInputOutputItem::Message {
            id: "msg_1".to_string(),
            role: "user".to_string(),
            content: vec![
                ResponseContentPart::InputText {
                    text: "describe this image".to_string(),
                },
                ResponseContentPart::InputImage {
                    image_url: ResponseImageUrlValue::Url("data:image/png;base64,AAAA".to_string()),
                    detail: None,
                },
            ],
            status: None,
        }]),
        ..Default::default()
    };

    let chat_req = responses_to_chat(&req).unwrap();
    assert_eq!(chat_req.messages.len(), 1);

    let ChatMessage::User { content, .. } = &chat_req.messages[0] else {
        panic!("expected user message, got {:?}", chat_req.messages[0]);
    };
    let MessageContent::Parts(parts) = content else {
        panic!("expected MessageContent::Parts, got {:?}", content);
    };
    assert_eq!(parts.len(), 2);
    assert!(matches!(parts[0], ContentPart::Text { .. }));
    match &parts[1] {
        ContentPart::ImageUrl { image_url } => {
            assert_eq!(image_url.url, "data:image/png;base64,AAAA");
            assert_eq!(image_url.detail.as_deref(), Some("auto"));
        }
        other => panic!("expected ContentPart::ImageUrl, got {:?}", other),
    }
}

/// An image that a tool gave back is kept.
#[test]
fn test_function_call_output_with_image_preserves_image() {
    let req = ResponsesRequest {
        input: ResponseInput::Items(vec![ResponseInputOutputItem::FunctionCallOutput {
            id: None,
            call_id: "c1".to_string(),
            output: FunctionCallOutputContent::Parts(vec![ResponseContentPart::InputImage {
                image_url: ResponseImageUrlValue::Url("data:image/png;base64,AAAA".to_string()),
                detail: None,
            }]),
            status: None,
        }]),
        ..Default::default()
    };

    let chat_req = responses_to_chat(&req).unwrap();
    assert_eq!(chat_req.messages.len(), 1);

    let ChatMessage::Tool {
        content,
        tool_call_id,
    } = &chat_req.messages[0]
    else {
        panic!("expected tool message, got {:?}", chat_req.messages[0]);
    };
    assert_eq!(tool_call_id, "c1");
    let MessageContent::Parts(parts) = content else {
        panic!("expected MessageContent::Parts, got {:?}", content);
    };
    assert_eq!(parts.len(), 1);
    assert!(matches!(parts[0], ContentPart::ImageUrl { .. }));
}

#[test]
fn a_request_without_messages_is_refused() {
    let error = responses_to_chat(&items(vec![])).unwrap_err();
    assert_eq!(error, "Request must contain at least one message");
}

#[test]
fn instructions_alone_are_enough() {
    let req = ResponsesRequest {
        instructions: Some("Be brief.".to_string()),
        ..items(vec![])
    };
    assert_eq!(
        responses_to_chat(&req).unwrap().messages,
        vec![ChatMessage::System {
            content: plain("Be brief."),
            name: None
        }]
    );
}

#[test]
fn every_field_of_the_chat_request() {
    let req = ResponsesRequest {
        input: ResponseInput::Text("hi".to_string()),
        model: String::new(),
        conversation: Some("conv_1".to_string()),
        instructions: None,
        max_output_tokens: Some(256),
        parallel_tool_calls: Some(false),
        previous_response_id: Some("resp_0".to_string()),
        stream: Some(true),
        temperature: Some(single(0.25)),
        text: Some(TextConfig {
            format: Some(TextFormat::JsonObject),
        }),
        tool_choice: Some(ToolChoice::AllowedTools {
            mode: "auto".to_string(),
            tools: vec!["f".to_string(), "g".to_string()],
        }),
        tools: Some(vec![tool(ResponseToolType::Function, Some(function("f")))]),
        top_logprobs: Some(3),
        top_p: Some(single(0.9)),
    };
    let expected = ChatCompletionRequest {
        messages: vec![ChatMessage::User {
            content: plain("hi"),
            name: None,
        }],
        model: "unknown".to_string(),
        frequency_penalty: None,
        logprobs: false,
        max_completion_tokens: Some(256),
        max_tokens: None,
        n: None,
        parallel_tool_calls: Some(false),
        presence_penalty: None,
        response_format: Some(ResponseFormat::JsonObject),
        seed: None,
        skip_special_tokens: true,
        stop: None,
        stream: true,
        stream_options: Some(StreamOptions {
            include_usage: Some(true),
        }),
        temperature: Some(single(0.25)),
        tool_choice: Some(ToolChoice::AllowedTools {
            mode: "auto".to_string(),
            tools: vec!["f".to_string(), "g".to_string()],
        }),
        tools: Some(vec![Tool {
            tool_type: "function".to_string(),
            function: function("f"),
        }]),
        top_logprobs: Some(3),
        top_p: Some(single(0.9)),
        user: None,
    };
    assert_eq!(responses_to_chat(&req).unwrap(), expected);
    assert_eq!(UNKNOWN_MODEL_ID, "unknown");
}

#[test]
fn without_streaming_no_usage_is_asked_for() {
    for stream in [None, Some(false)] {
        let req = ResponsesRequest {
            stream,
            ..Default::default()
        };
        let chat = responses_to_chat(&req).unwrap();
        assert!(!chat.stream);
        assert_eq!(chat.stream_options, None);
    }
}

#[test]
fn context_plays_no_part() {
    let with_context = ResponsesRequest {
        previous_response_id: Some("resp_1".to_string()),
        conversation: Some("conv_1".to_string()),
        ..Default::default()
    };
    assert_eq!(
        responses_to_chat(&with_context),
        responses_to_chat(&ResponsesRequest::default())
    );
}

#[test]
fn items_keep_their_order() {
    let req = ResponsesRequest {
        instructions: Some("Be kind.".to_string()),
        ..items(vec![
            simple("user", StringOrContentParts::String("one".to_string())),
            ResponseInputOutputItem::Reasoning {
                id: "r1".to_string(),
                summary: vec![],
                content: vec![
                    ResponseReasoningContent::ReasoningText {
                        text: "first".to_string(),
                    },
                    ResponseReasoningContent::ReasoningText {
                        text: "second".to_string(),
                    },
                ],
                status: None,
            },
            ResponseInputOutputItem::FunctionToolCall {
                id: None,
                call_id: "c1".to_string(),
                name: "f".to_string(),
                arguments: "{\"x\":1}".to_string(),
                output: Some("2".to_string()),
                status: None,
            },
            simple(
                "system",
                StringOrContentParts::Array(vec![input_text("a"), input_text("b")]),
            ),
        ])
    };
    assert_eq!(
        responses_to_chat(&req).unwrap().messages,
        vec![
            ChatMessage::System {
                content: plain("Be kind."),
                name: None
            },
            ChatMessage::User {
                content: plain("one"),
                name: None
            },
            ChatMessage::Assistant {
                content: None,
                name: None,
                tool_calls: None,
                reasoning_content: Some("first\nsecond".to_string()),
            },
            call_message("c1", "f", "{\"x\":1}"),
            ChatMessage::Tool {
                content: plain("2"),
                tool_call_id: "c1".to_string()
            },
            ChatMessage::System {
                content: plain("ab"),
                name: None
            },
        ]
    );
}

#[test]
fn an_attached_output_equals_a_separate_one() {
    let call = |output: Option<&str>| ResponseInputOutputItem::FunctionToolCall {
        id: Some("fc1".to_string()),
        call_id: "c1".to_string(),
        name: "f".to_string(),
        arguments: "{}".to_string(),
        output: output.map(str::to_string),
        status: None,
    };
    let separate = ResponseInputOutputItem::FunctionCallOutput {
        id: Some("fco1".to_string()),
        call_id: "c1".to_string(),
        output: FunctionCallOutputContent::Text("done".to_string()),
        status: None,
    };
    assert_eq!(
        responses_to_chat(&items(vec![call(Some("done"))])),
        responses_to_chat(&items(vec![call(None), separate]))
    );
}

#[test]
fn reasoning_without_steps_is_an_empty_text() {
    let req = items(vec![ResponseInputOutputItem::Reasoning {
        id: "r1".to_string(),
        summary: vec!["left out".to_string()],
        content: vec![],
        status: None,
    }]);
    assert_eq!(
        responses_to_chat(&req).unwrap().messages,
        vec![ChatMessage::Assistant {
            content: None,
            name: None,
            tool_calls: None,
            reasoning_content: Some(String::new()),
        }]
    );
}

#[test]
fn roles() {
    assert_eq!(
        role_to_chat_message("user", plain("x")),
        ChatMessage::User {
            content: plain("x"),
            name: None
        }
    );
    assert_eq!(
        role_to_chat_message("assistant", plain("x")),
        ChatMessage::Assistant {
            content: Some(plain("x")),
            name: None,
            tool_calls: None,
            reasoning_content: None,
        }
    );
    assert_eq!(
        role_to_chat_message("system", plain("x")),
        ChatMessage::System {
            content: plain("x"),
            name: None
        }
    );
    for role in ["developer", "System", ""] {
        assert_eq!(
            role_to_chat_message(role, plain("x")),
            ChatMessage::User {
                content: plain("x"),
                name: None
            }
        );
    }
}

#[test]
fn detail_levels() {
    assert_eq!(
        response_content_part_to_chat(&image("u", Some("high"), Some("low"))),
        Some(chat_image("u", "high"))
    );
    assert_eq!(
        response_content_part_to_chat(&image("u", None, Some("low"))),
        Some(chat_image("u", "low"))
    );
    assert_eq!(
        response_content_part_to_chat(&image("u", None, None)),
        Some(chat_image("u", "auto"))
    );
    assert_eq!(
        response_content_part_to_chat(&ResponseContentPart::Unknown),
        None
    );
    assert_eq!(
        response_content_part_to_chat(&input_text("t")),
        Some(ContentPart::Text {
            text: "t".to_string()
        })
    );
}

#[test]
fn texts_alone_become_plain_text() {
    let parts = vec![
        input_text("one "),
        ResponseContentPart::Unknown,
        ResponseContentPart::OutputText {
            text: "two".to_string(),
            annotations: vec!["note".to_string()],
            logprobs: None,
        },
    ];
    assert_eq!(extract_text_from_content(&parts), "one two");
    assert_eq!(convert_content_parts(&parts), plain("one two"));
    assert_eq!(convert_content_parts(&[]), plain(""));
}

#[test]
fn with_an_image_every_known_part_is_kept() {
    let parts = vec![
        input_text("a"),
        image("u", None, None),
        ResponseContentPart::Unknown,
        input_text(""),
        image("v", None, Some("low")),
    ];
    assert_eq!(
        convert_content_parts(&parts),
        MessageContent::Parts(vec![
            ContentPart::Text {
                text: "a".to_string()
            },
            chat_image("u", "auto"),
            ContentPart::Text {
                text: String::new()
            },
            chat_image("v", "low"),
        ])
    );
    assert_eq!(extract_text_from_content(&parts), "a");
}

#[test]
fn tool_outputs() {
    assert_eq!(
        function_call_output_to_message_content(&FunctionCallOutputContent::Text("t".to_string())),
        plain("t")
    );
    assert_eq!(
        function_call_output_to_message_content(&FunctionCallOutputContent::Parts(vec![
            input_text("x"),
            input_text("y")
        ])),
        plain("xy")
    );
}

#[test]
fn formats() {
    assert_eq!(map_text_to_response_format(&None), None);
    assert_eq!(
        map_text_to_response_format(&Some(TextConfig { format: None })),
        None
    );
    assert_eq!(
        map_text_to_response_format(&Some(TextConfig {
            format: Some(TextFormat::Text)
        })),
        Some(ResponseFormat::Text)
    );
    assert_eq!(
        map_text_to_response_format(&Some(TextConfig {
            format: Some(TextFormat::JsonSchema {
                name: "point".to_string(),
                schema: Json {
                    text: "{}".to_string()
                },
                description: Some("left out".to_string()),
                strict: Some(false),
            })
        })),
        Some(ResponseFormat::JsonSchema {
            json_schema: JsonSchemaFormat {
                name: "point".to_string(),
                schema: Json {
                    text: "{}".to_string()
                },
                strict: Some(false),
            }
        })
    );
}

#[test]
fn only_function_tools_are_offered() {
    let tools = || {
        vec![
            tool(ResponseToolType::WebSearchPreview, None),
            tool(ResponseToolType::Mcp, Some(function("m"))),
            tool(ResponseToolType::Function, Some(function("f"))),
            tool(ResponseToolType::Function, None),
            tool(ResponseToolType::CodeInterpreter, Some(function("c"))),
        ]
    };
    let chat_tool = |name: &str| Tool {
        tool_type: "function".to_string(),
        function: function(name),
    };
    assert_eq!(
        extract_tools_from_response_tools(Some(&tools()), false),
        vec![chat_tool("f")]
    );
    assert_eq!(
        extract_tools_from_response_tools(Some(&tools()), true),
        vec![chat_tool("m"), chat_tool("f")]
    );
    assert_eq!(extract_tools_from_response_tools(None, true), vec![]);

    let req = ResponsesRequest {
        tools: Some(vec![tool(ResponseToolType::Mcp, Some(function("m")))]),
        ..Default::default()
    };
    assert_eq!(responses_to_chat(&req).unwrap().tools, None);
}

#[test]
fn texts() {
    assert_eq!(join(&vec![], ", "), "");
    assert_eq!(join(&vec!["a"], ", "), "a");
    assert_eq!(join(&vec!["a", "", "b"], ", "), "a, , b");
    assert!(same_text("tool", "tool"));
    assert!(!same_text("tool", "tools"));
}

#[test]
fn only_the_content_of_an_item_counts() {
    let message = |id: &str, status: Option<&str>| ResponseInputOutputItem::Message {
        id: id.to_string(),
        role: "user".to_string(),
        content: vec![input_text("x")],
        status: status.map(str::to_string),
    };
    assert_eq!(
        responses_to_chat(&items(vec![message("msg_1", None)])),
        responses_to_chat(&items(vec![message("msg_2", Some("completed"))]))
    );
}

#[test]
fn leaving_mcp_tools_out_equals_not_having_them() {
    let function_tool = || tool(ResponseToolType::Function, Some(function("f")));
    let mcp_tool = || tool(ResponseToolType::Mcp, Some(function("m")));
    assert_eq!(
        extract_tools_from_response_tools(Some(&[mcp_tool(), function_tool()]), false),
        extract_tools_from_response_tools(Some(&[function_tool()]), true)
    );
}
