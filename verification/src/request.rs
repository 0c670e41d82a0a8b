//! From a request to the Responses API to a chat request.

use crate::content::{
    chat_content, convert_content_parts, function_call_output_to_message_content, tool_content,
};
use crate::laws::law_refused_without_messages;
use crate::protocols::chat::{
    ChatCompletionRequest, ChatCompletionRequestView, ChatMessage, ChatMessageView, MessageContent,
    MessageContentView,
};
use crate::protocols::common::{
    FunctionCallResponse, FunctionCallResponseView, JsonSchemaFormat, JsonSchemaFormatView,
    ResponseFormat, ResponseFormatView, StreamOptions, ToolCall, ToolCallView, ToolView,
};
use crate::protocols::responses::{
    ResponseInput, ResponseInputOutputItem, ResponseInputOutputItemView, ResponseInputView,
    ResponseReasoningContent, ResponseReasoningContentView, ResponseToolView, ResponsesRequest,
    ResponsesRequestView, StringOrContentParts, StringOrContentPartsView, TextConfig,
    TextConfigView, TextFormat, TextFormatView,
};
use crate::protocols::UNKNOWN_MODEL_ID;
use crate::text::{join, joined, same_text};
use crate::tools::{extract_tools_from_response_tools, extracted_tools};
use vstd::prelude::*;

verus! {

/// The message that someone in this role says; a role that is not known counts as the user's.
pub open spec fn message_of_role(role: Seq<char>, content: MessageContentView) -> ChatMessageView {
    if role == "assistant"@ {
        ChatMessageView::Assistant {
            content: Some(content),
            name: None,
            tool_calls: None,
            reasoning_content: None,
        }
    } else if role == "system"@ {
        ChatMessageView::System { content, name: None }
    } else {
        ChatMessageView::User { content, name: None }
    }
}

/// The content of a chat message for a content in the short form.
pub open spec fn simple_content(content: StringOrContentPartsView) -> MessageContentView {
    match content {
        StringOrContentPartsView::String(text) => MessageContentView::Text(text),
        StringOrContentPartsView::Array(parts) => chat_content(parts),
    }
}

/// The message in which the assistant decides to call one function.
pub open spec fn call_message(
    call_id: Seq<char>,
    name: Seq<char>,
    arguments: Seq<char>,
) -> ChatMessageView {
    ChatMessageView::Assistant {
        content: None,
        name: None,
        tool_calls: Some(
            seq![
                ToolCallView {
                    id: call_id,
                    tool_type: "function"@,
                    function: FunctionCallResponseView { name, arguments: Some(arguments) },
                },
            ],
        ),
        reasoning_content: None,
    }
}

/// The text of one step of reasoning.
pub open spec fn reasoning_text(content: ResponseReasoningContentView) -> Seq<char> {
    match content {
        ResponseReasoningContentView::ReasoningText { text } => text,
    }
}

/// The steps of a reasoning, one to a line.
pub open spec fn reasoning_lines(content: Seq<ResponseReasoningContentView>) -> Seq<char> {
    joined(content.map_values(|step: ResponseReasoningContentView| reasoning_text(step)), "\n"@)
}

/// The chat messages for one item of the input.
pub open spec fn item_messages(item: ResponseInputOutputItemView) -> Seq<ChatMessageView> {
    match item {
        ResponseInputOutputItemView::SimpleInputMessage { content, role, .. } => seq![
            message_of_role(role, simple_content(content)),
        ],
        ResponseInputOutputItemView::Message { role, content, .. } => seq![
            message_of_role(role, chat_content(content)),
        ],
        ResponseInputOutputItemView::FunctionToolCall { call_id, name, arguments, output, .. } => {
            match output {
                Some(text) => seq![
                    call_message(call_id, name, arguments),
                    ChatMessageView::Tool {
                        content: MessageContentView::Text(text),
                        tool_call_id: call_id,
                    },
                ],
                None => seq![call_message(call_id, name, arguments)],
            }
        },
        ResponseInputOutputItemView::Reasoning { content, .. } => seq![
            ChatMessageView::Assistant {
                content: None,
                name: None,
                tool_calls: None,
                reasoning_content: Some(reasoning_lines(content)),
            },
        ],
        ResponseInputOutputItemView::FunctionCallOutput { call_id, output, .. } => seq![
            ChatMessageView::Tool { content: tool_content(output), tool_call_id: call_id },
        ],
    }
}

/// The chat messages for the items of the input, in their order.
pub open spec fn items_messages(items: Seq<ResponseInputOutputItemView>) -> Seq<ChatMessageView> {
    items.flat_map(|item: ResponseInputOutputItemView| item_messages(item))
}

/// The message that carries the instructions of a request, if it has any.
pub open spec fn instruction_messages(instructions: Option<Seq<char>>) -> Seq<ChatMessageView> {
    match instructions {
        Some(text) => seq![
            ChatMessageView::System { content: MessageContentView::Text(text), name: None },
        ],
        None => seq![],
    }
}

/// The chat messages for the input of a request.
pub open spec fn input_messages(input: ResponseInputView) -> Seq<ChatMessageView> {
    match input {
        ResponseInputView::Text(text) => seq![
            ChatMessageView::User { content: MessageContentView::Text(text), name: None },
        ],
        ResponseInputView::Items(items) => items_messages(items),
    }
}

/// All messages of the chat request: the instructions come first.
pub open spec fn request_messages(request: ResponsesRequestView) -> Seq<ChatMessageView> {
    instruction_messages(request.instructions) + input_messages(request.input)
}

/// Whether the request holds nothing that could become a message.
pub open spec fn is_void(request: ResponsesRequestView) -> bool {
    &&& request.instructions is None
    &&& request.input matches ResponseInputView::Items(items)
    &&& items.len() == 0
}

/// The shape in which the chat request wants its answer.
pub open spec fn chat_format(text: Option<TextConfigView>) -> Option<ResponseFormatView> {
    match text {
        Some(TextConfigView { format: Some(format) }) => Some(
            match format {
                TextFormatView::Text => ResponseFormatView::Text,
                TextFormatView::JsonObject => ResponseFormatView::JsonObject,
                TextFormatView::JsonSchema { name, schema, strict, .. } => {
                    ResponseFormatView::JsonSchema {
                        json_schema: JsonSchemaFormatView { name, schema, strict },
                    }
                },
            },
        ),
        _ => None,
    }
}

/// The function tools that the chat request offers; none at all rather than an empty list.
pub open spec fn chat_tools(
    tools: Option<Seq<ResponseToolView>>,
) -> Option<Seq<ToolView>> {
    match tools {
        Some(tools) if extracted_tools(tools, false).len() > 0 => Some(
            extracted_tools(tools, false),
        ),
        _ => None,
    }
}

/// The chat request for a request.
pub open spec fn chat_request(request: ResponsesRequestView) -> ChatCompletionRequestView {
    let streaming = request.stream == Some(true);
    ChatCompletionRequestView {
        messages: request_messages(request),
        model: if request.model.len() == 0 {
            UNKNOWN_MODEL_ID@
        } else {
            request.model
        },
        temperature: request.temperature,
        max_completion_tokens: request.max_output_tokens,
        stream: streaming,
        stream_options: if streaming {
            Some(StreamOptions { include_usage: Some(true) })
        } else {
            None
        },
        parallel_tool_calls: request.parallel_tool_calls,
        top_logprobs: request.top_logprobs,
        top_p: request.top_p,
        skip_special_tokens: true,
        tools: chat_tools(request.tools),
        tool_choice: request.tool_choice,
        response_format: chat_format(request.text),
        ..ChatCompletionRequestView::unset()
    }
}

/// The message that someone in this role says; a role that is not known counts as the user's.
pub fn role_to_chat_message(role: &str, content: MessageContent) -> (result: ChatMessage)
    ensures
        result.deep_view() == message_of_role(role@, content.deep_view()),
{
    if same_text(role, "assistant") {
        ChatMessage::Assistant {
            content: Some(content),
            name: None,
            tool_calls: None,
            reasoning_content: None,
        }
    } else if same_text(role, "system") {
        ChatMessage::System { content, name: None }
    } else {
        ChatMessage::User { content, name: None }
    }
}

/// Maps the wanted shape of the answer. The description of a schema has no place in a chat
/// request and is dropped.
pub fn map_text_to_response_format(text: &Option<TextConfig>) -> (result: Option<ResponseFormat>)
    ensures
        result.deep_view() == chat_format(text.deep_view()),
{
    match text {
        Some(TextConfig { format: Some(format) }) => Some(
            match format {
                TextFormat::Text => ResponseFormat::Text,
                TextFormat::JsonObject => ResponseFormat::JsonObject,
                TextFormat::JsonSchema { name, schema, strict, .. } => ResponseFormat::JsonSchema {
                    json_schema: JsonSchemaFormat {
                        name: name.clone(),
                        schema: schema.clone(),
                        strict: *strict,
                    },
                },
            },
        ),
        _ => None,
    }
}

/// The chat messages for one more item follow those for the items before it.
proof fn lemma_items_messages_step(items: Seq<ResponseInputOutputItemView>, i: int)
    requires
        0 <= i < items.len(),
    ensures
        items_messages(items.take(i + 1)) == items_messages(items.take(i)) + item_messages(
            items[i],
        ),
{
    let convert = |item: ResponseInputOutputItemView| item_messages(item);
    items.take(i).map_values(convert).lemma_flatten_push(item_messages(items[i]));
    assert(items.take(i + 1).map_values(convert) == items.take(i).map_values(convert).push(
        item_messages(items[i]),
    ));
}

/// Joins the steps of a reasoning, one to a line.
fn join_reasoning(content: &Vec<ResponseReasoningContent>) -> (result: String)
    ensures
        result@ == reasoning_lines(content.deep_view()),
{
    let mut texts: Vec<&str> = Vec::new();
    let ghost lines = content.deep_view().map_values(
        |step: ResponseReasoningContentView| reasoning_text(step),
    );
    for i in 0..content.len()
        invariant
            lines == content.deep_view().map_values(
                |step: ResponseReasoningContentView| reasoning_text(step),
            ),
            texts.deep_view() == lines.take(i as int),
    {
        let ghost before = texts.deep_view();
        match &content[i] {
            ResponseReasoningContent::ReasoningText { text } => texts.push(text.as_str()),
        }
        assert(texts.deep_view() == before.push(lines[i as int]));
    }
    assert(lines.take(lines.len() as int) == lines);
    join(&texts, "\n")
}

/// Appends the chat messages for one item of the input.
fn push_item_messages(item: &ResponseInputOutputItem, messages: &mut Vec<ChatMessage>)
    ensures
        final(messages).deep_view() == old(messages).deep_view() + item_messages(item.deep_view()),
{
    match item {
        ResponseInputOutputItem::SimpleInputMessage { content, role, .. } => {
            let message_content = match content {
                StringOrContentParts::String(text) => MessageContent::Text(text.clone()),
                StringOrContentParts::Array(parts) => {
                    let slice = parts.as_slice();
                    assert(slice.deep_view() == parts.deep_view());
                    convert_content_parts(slice)
                },
            };
            messages.push(role_to_chat_message(role.as_str(), message_content));
        },
        ResponseInputOutputItem::Message { role, content, .. } => {
            let slice = content.as_slice();
            assert(slice.deep_view() == content.deep_view());
            let message_content = convert_content_parts(slice);
            messages.push(role_to_chat_message(role.as_str(), message_content));
        },
        ResponseInputOutputItem::FunctionToolCall { call_id, name, arguments, output, .. } => {
            // The call is known by `call_id`, which also names it in a separate output item; `id`
            // is unrelated.
            let tool_calls = vec![
                ToolCall {
                    id: call_id.clone(),
                    tool_type: "function".to_string(),
                    function: FunctionCallResponse {
                        name: name.clone(),
                        arguments: Some(arguments.clone()),
                    },
                },
            ];
            assert(tool_calls.deep_view() == seq![tool_calls@[0].deep_view()]);
            messages.push(
                ChatMessage::Assistant {
                    content: None,
                    name: None,
                    tool_calls: Some(tool_calls),
                    reasoning_content: None,
                },
            );
            if let Some(text) = output {
                messages.push(
                    ChatMessage::Tool {
                        content: MessageContent::Text(text.clone()),
                        tool_call_id: call_id.clone(),
                    },
                );
            }
        },
        ResponseInputOutputItem::Reasoning { content, .. } => {
            messages.push(
                ChatMessage::Assistant {
                    content: None,
                    name: None,
                    tool_calls: None,
                    reasoning_content: Some(join_reasoning(content)),
                },
            );
        },
        ResponseInputOutputItem::FunctionCallOutput { call_id, output, .. } => {
            messages.push(
                ChatMessage::Tool {
                    content: function_call_output_to_message_content(output),
                    tool_call_id: call_id.clone(),
                },
            );
        },
    }
}

/// Converts a request to a chat request.
///
/// The instructions become a leading system message and the input the messages after it, in
/// their order. Of the tools, only the function tools are offered. The earlier response and the
/// conversation that the request refers to play no part. A request without any message is
/// refused.
pub fn responses_to_chat(req: &ResponsesRequest) -> (result: Result<ChatCompletionRequest, String>)
    ensures
        result is Err <==> is_void(req.deep_view()),
        match result {
            Ok(chat) => chat.deep_view() == chat_request(req.deep_view()),
            Err(error) => error@ == "Request must contain at least one message"@,
        },
{
    let mut messages: Vec<ChatMessage> = Vec::new();
    if let Some(instructions) = &req.instructions {
        messages.push(
            ChatMessage::System {
                content: MessageContent::Text(instructions.clone()),
                name: None,
            },
        );
    }
    assert(messages.deep_view() == instruction_messages(req.deep_view().instructions));
    match &req.input {
        ResponseInput::Text(text) => {
            messages.push(
                ChatMessage::User { content: MessageContent::Text(text.clone()), name: None },
            );
        },
        ResponseInput::Items(items) => {
            let ghost leading = messages.deep_view();
            let ghost all = items.deep_view();
            assert(items_messages(all.take(0)) == Seq::<ChatMessageView>::empty());
            for i in 0..items.len()
                invariant
                    all == items.deep_view(),
                    messages.deep_view() == leading + items_messages(all.take(i as int)),
            {
                proof {
                    lemma_items_messages_step(all, i as int);
                    assert(all[i as int] == items[i as int].deep_view());
                }
                push_item_messages(&items[i], &mut messages);
            }
            assert(all.take(all.len() as int) == all);
        },
    }
    proof {
        law_refused_without_messages(req.deep_view());
        assert(messages.deep_view() == request_messages(req.deep_view()));
    }
    if messages.is_empty() {
        return Err("Request must contain at least one message".to_string());
    }
    let function_tools = match &req.tools {
        Some(tools) => {
            let slice = tools.as_slice();
            assert(slice.deep_view() == tools.deep_view());
            extract_tools_from_response_tools(Some(slice), false)
        },
        None => extract_tools_from_response_tools(None, false),
    };
    assert(function_tools.deep_view().len() == function_tools@.len());
    let tools = if function_tools.is_empty() {
        None
    } else {
        Some(function_tools)
    };
    assert(tools.deep_view() == chat_tools(req.deep_view().tools));
    let is_streaming = req.stream.unwrap_or(false);
    Ok(
        ChatCompletionRequest {
            messages,
            model: if req.model.as_str().is_empty() {
                UNKNOWN_MODEL_ID.to_string()
            } else {
                req.model.clone()
            },
            temperature: req.temperature,
            max_completion_tokens: req.max_output_tokens,
            stream: is_streaming,
            stream_options: if is_streaming {
                Some(StreamOptions { include_usage: Some(true) })
            } else {
                None
            },
            parallel_tool_calls: req.parallel_tool_calls,
            top_logprobs: req.top_logprobs,
            top_p: req.top_p,
            skip_special_tokens: true,
            tools,
            tool_choice: req.tool_choice.clone(),
            response_format: map_text_to_response_format(&req.text),
            ..Default::default()
        },
    )
}

} // verus!
