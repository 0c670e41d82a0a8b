//! From the answer to a chat request to a response of the Responses API.

use crate::protocols::chat::{
    ChatChoice, ChatChoiceView, ChatCompletionResponse, ChatCompletionResponseView,
};
use crate::protocols::common::{ChatLogProbsView, ToolCall, ToolCallView, Usage, UsageInfo};
use crate::protocols::responses::{
    ResponseContentPart, ResponseContentPartView, ResponseOutputItem, ResponseOutputItemView,
    ResponseReasoningContent, ResponseReasoningContentView, ResponseStatus, ResponsesRequest,
    ResponsesRequestView, ResponsesResponse, ResponsesResponseView, ResponsesUsage,
};
use crate::text::same_text;
use vstd::prelude::*;

verus! {

/// The output item for the text that the assistant answered.
pub open spec fn message_item(
    response_id: Seq<char>,
    text: Seq<char>,
    logprobs: Option<ChatLogProbsView>,
) -> ResponseOutputItemView {
    ResponseOutputItemView::Message {
        id: "msg_"@ + response_id,
        role: "assistant"@,
        content: seq![ResponseContentPartView::OutputText { text, annotations: seq![], logprobs }],
        status: "completed"@,
    }
}

/// The output item for the assistant's reasoning.
pub open spec fn reasoning_item(
    response_id: Seq<char>,
    reasoning: Seq<char>,
) -> ResponseOutputItemView {
    ResponseOutputItemView::Reasoning {
        id: "reasoning_"@ + response_id,
        summary: seq![],
        content: seq![ResponseReasoningContentView::ReasoningText { text: reasoning }],
        status: Some("completed"@),
    }
}

/// The output item for a tool call, which has yet to be carried out.
pub open spec fn call_item(call: ToolCallView) -> ResponseOutputItemView {
    ResponseOutputItemView::FunctionToolCall {
        id: call.id,
        call_id: call.id,
        name: call.function.name,
        arguments: match call.function.arguments {
            Some(arguments) => arguments,
            None => seq![],
        },
        output: None,
        status: "in_progress"@,
    }
}

/// The output items for a choice: its text, its reasoning, its tool calls, each where there is
/// any.
pub open spec fn output_items(
    response_id: Seq<char>,
    choice: ChatChoiceView,
) -> Seq<ResponseOutputItemView> {
    let message = match choice.message.content {
        Some(text) if text.len() > 0 => seq![message_item(response_id, text, choice.logprobs)],
        _ => seq![],
    };
    let reasoning = match choice.message.reasoning_content {
        Some(text) if text.len() > 0 => seq![reasoning_item(response_id, text)],
        _ => seq![],
    };
    let calls = match choice.message.tool_calls {
        Some(calls) => calls.map_values(|call: ToolCallView| call_item(call)),
        None => seq![],
    };
    message + reasoning + calls
}

/// The status of a response whose generation ended for this reason.
pub open spec fn status_of(finish_reason: Option<Seq<char>>) -> ResponseStatus {
    match finish_reason {
        Some(reason) => {
            if reason == "stop"@ || reason == "length"@ {
                ResponseStatus::Completed
            } else if reason == "tool_calls"@ {
                ResponseStatus::InProgress
            } else if reason == "failed"@ || reason == "error"@ {
                ResponseStatus::Failed
            } else {
                ResponseStatus::Completed
            }
        },
        None => ResponseStatus::Completed,
    }
}

/// The token counts in the form that a response reports.
pub open spec fn response_usage(usage: Usage) -> ResponsesUsage {
    ResponsesUsage::Classic(
        UsageInfo {
            prompt_tokens: usage.prompt_tokens,
            completion_tokens: usage.completion_tokens,
            total_tokens: usage.total_tokens,
            reasoning_tokens: match usage.completion_tokens_details {
                Some(details) => details.reasoning_tokens,
                None => None,
            },
            prompt_tokens_details: None,
        },
    )
}

/// The time with the same bits in two's complement: times from `2^63` on wrap around.
pub open spec fn signed_time(created: u64) -> int {
    if created <= i64::MAX {
        created as int
    } else {
        created - 0x1_0000_0000_0000_0000
    }
}

/// The response for the answer `chat` to `request`, under the given id or else the answer's own.
pub open spec fn response_for(
    chat: ChatCompletionResponseView,
    request: ResponsesRequestView,
    id: Option<Seq<char>>,
) -> ResponsesResponseView
    recommends
        chat.choices.len() > 0,
{
    let id = match id {
        Some(id) => id,
        None => chat.id,
    };
    ResponsesResponseView {
        created_at: signed_time(chat.created) as i64,
        status: status_of(chat.choices[0].finish_reason),
        output: output_items(chat.id, chat.choices[0]),
        text: request.text,
        usage: match chat.usage {
            Some(usage) => Some(response_usage(usage)),
            None => None,
        },
        ..ResponsesResponseView::started(id, chat.model).with_settings_of(request)
    }
}

/// The status of a response whose generation ended for this reason.
fn finish_status(finish_reason: &Option<String>) -> (result: ResponseStatus)
    ensures
        result == status_of(finish_reason.deep_view()),
{
    match finish_reason {
        Some(reason) => {
            let reason = reason.as_str();
            if same_text(reason, "stop") || same_text(reason, "length") {
                ResponseStatus::Completed
            } else if same_text(reason, "tool_calls") {
                // The tools have yet to run.
                ResponseStatus::InProgress
            } else if same_text(reason, "failed") || same_text(reason, "error") {
                ResponseStatus::Failed
            } else {
                ResponseStatus::Completed
            }
        },
        None => ResponseStatus::Completed,
    }
}

/// The output item for a tool call.
fn tool_call_to_output_item(call: &ToolCall) -> (result: ResponseOutputItem)
    ensures
        result.deep_view() == call_item(call.deep_view()),
{
    ResponseOutputItem::FunctionToolCall {
        id: call.id.clone(),
        call_id: call.id.clone(),
        name: call.function.name.clone(),
        arguments: match &call.function.arguments {
            Some(arguments) => arguments.clone(),
            None => String::new(),
        },
        output: None,
        status: "in_progress".to_string(),
    }
}

/// The output items for a choice.
fn choice_to_output_items(response_id: &str, choice: &ChatChoice) -> (result: Vec<
    ResponseOutputItem,
>)
    ensures
        result.deep_view() == output_items(response_id@, choice.deep_view()),
{
    let mut output: Vec<ResponseOutputItem> = Vec::new();
    if let Some(text) = &choice.message.content {
        if !text.as_str().is_empty() {
            let annotations: Vec<String> = Vec::new();
            let content = vec![
                ResponseContentPart::OutputText {
                    text: text.clone(),
                    annotations,
                    logprobs: choice.logprobs.clone(),
                },
            ];
            assert(annotations.deep_view() == Seq::<Seq<char>>::empty());
            assert(content.deep_view() == seq![content@[0].deep_view()]);
            output.push(
                ResponseOutputItem::Message {
                    id: "msg_".to_string().concat(response_id),
                    role: "assistant".to_string(),
                    content,
                    status: "completed".to_string(),
                },
            );
        }
    }
    if let Some(reasoning) = &choice.message.reasoning_content {
        if !reasoning.as_str().is_empty() {
            let summary: Vec<String> = Vec::new();
            let content = vec![ResponseReasoningContent::ReasoningText { text: reasoning.clone() }];
            assert(summary.deep_view() == Seq::<Seq<char>>::empty());
            assert(content.deep_view() == seq![content@[0].deep_view()]);
            output.push(
                ResponseOutputItem::Reasoning {
                    id: "reasoning_".to_string().concat(response_id),
                    summary,
                    content,
                    status: Some("completed".to_string()),
                },
            );
        }
    }
    if let Some(calls) = &choice.message.tool_calls {
        let ghost leading = output.deep_view();
        let ghost items = calls.deep_view().map_values(|call: ToolCallView| call_item(call));
        for i in 0..calls.len()
            invariant
                items == calls.deep_view().map_values(|call: ToolCallView| call_item(call)),
                output.deep_view() == leading + items.take(i as int),
        {
            let ghost before = output.deep_view();
            output.push(tool_call_to_output_item(&calls[i]));
            assert(output.deep_view() == before.push(items[i as int]));
        }
        assert(items.take(items.len() as int) == items);
    }
    output
}

/// Converts the answer to a chat request to a response to the request behind it.
///
/// Only the first choice counts: the Responses API knows no others. An answer without a choice is
/// refused.
pub fn chat_to_responses(
    chat_resp: &ChatCompletionResponse,
    original_req: &ResponsesRequest,
    response_id_override: Option<String>,
) -> (result: Result<ResponsesResponse, String>)
    ensures
        result is Err <==> chat_resp.choices@.len() == 0,
        match result {
            Ok(response) => response.deep_view() == response_for(
                chat_resp.deep_view(),
                original_req.deep_view(),
                response_id_override.deep_view(),
            ),
            Err(error) => error@ == "Chat response contains no choices"@,
        },
{
    if chat_resp.choices.is_empty() {
        return Err("Chat response contains no choices".to_string());
    }
    let choice = &chat_resp.choices[0];
    assert(choice.deep_view() == chat_resp.deep_view().choices[0]);
    let output = choice_to_output_items(chat_resp.id.as_str(), choice);
    let status = finish_status(&choice.finish_reason);
    let usage = match &chat_resp.usage {
        Some(usage) => Some(
            ResponsesUsage::Classic(
                UsageInfo {
                    prompt_tokens: usage.prompt_tokens,
                    completion_tokens: usage.completion_tokens,
                    total_tokens: usage.total_tokens,
                    reasoning_tokens: match usage.completion_tokens_details {
                        Some(details) => details.reasoning_tokens,
                        None => None,
                    },
                    prompt_tokens_details: None,
                },
            ),
        ),
        None => None,
    };
    let response_id = match response_id_override {
        Some(id) => id,
        None => chat_resp.id.clone(),
    };
    let created: u64 = chat_resp.created;
    let created_at: i64 = #[verifier::truncate] (created as i64);
    assert(created > 0x7fff_ffff_ffff_ffff ==> created as i64 == created
        - 0x1_0000_0000_0000_0000) by (bit_vector);
    Ok(
        ResponsesResponse::builder(response_id.as_str(), chat_resp.model.as_str())
            .copy_from_request(original_req)
            .created_at(created_at)
            .status(status)
            .output(output)
            .maybe_text(original_req.text.clone())
            .maybe_usage(usage)
            .build(),
    )
}

} // verus!
