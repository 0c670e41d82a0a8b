//! What the models keep of the values: everything.

use crate::protocols::chat::{
    ChatChoice, ChatCompletionMessage, ChatCompletionRequest, ChatCompletionResponse, ChatMessage,
    ChatMessageView, MessageContent, MessageContentView,
};
use crate::protocols::common::{
    ChatLogProbs, ContentPart, ContentPartView, FunctionCallResponse, FunctionDefinition, ImageUrl,
    Json, JsonSchemaFormat, ResponseFormat, ResponseFormatView, TokenLogProb, Tool, ToolCall,
    ToolChoice, ToolChoiceView,
};
use crate::protocols::responses::{
    FunctionCallOutputContent, FunctionCallOutputContentView, ResponseContentPart,
    ResponseContentPartView, ResponseImageUrlValue, ResponseImageUrlValueView, ResponseInput,
    ResponseInputOutputItem, ResponseInputOutputItemView, ResponseInputView, ResponseOutputItem,
    ResponseOutputItemView, ResponseReasoningContent, ResponseReasoningContentView, ResponseTool,
    ResponsesRequest, ResponsesResponse, StringOrContentParts, StringOrContentPartsView, TextConfig,
    TextFormat, TextFormatView,
};
use vstd::prelude::*;

verus! {

/// The model of a `Json` is the text of the document.
pub proof fn law_model_of_json(value: Json)
    ensures
        value.deep_view() == value.text@,
{
}

/// The model of a `TokenLogProb` holds what the value holds.
pub proof fn law_model_of_token_log_prob(value: TokenLogProb)
    ensures
        value.deep_view().token == value.token.deep_view(),
        value.deep_view().logprob == value.logprob,
{
}

/// The model of a `ChatLogProbs` holds what the value holds.
pub proof fn law_model_of_chat_log_probs(value: ChatLogProbs)
    ensures
        value.deep_view().content == value.content.deep_view(),
{
}

/// The model of an `ImageUrl` holds what the value holds.
pub proof fn law_model_of_image_url(value: ImageUrl)
    ensures
        value.deep_view().url == value.url.deep_view(),
        value.deep_view().detail == value.detail.deep_view(),
{
}

/// The model of a `ContentPart` holds what the value holds.
pub proof fn law_model_of_content_part(value: ContentPart)
    ensures
        match value {
            ContentPart::Text { text } => {
                &&& value.deep_view() matches ContentPartView::Text { text: got_text }
                &&& got_text == text.deep_view()
            },
            ContentPart::ImageUrl { image_url } => {
                &&& value.deep_view() matches ContentPartView::ImageUrl { image_url: got_image_url }
                &&& got_image_url == image_url.deep_view()
            },
        },
{
}

/// The model of a `FunctionCallResponse` holds what the value holds.
pub proof fn law_model_of_function_call_response(value: FunctionCallResponse)
    ensures
        value.deep_view().name == value.name.deep_view(),
        value.deep_view().arguments == value.arguments.deep_view(),
{
}

/// The model of a `ToolCall` holds what the value holds.
pub proof fn law_model_of_tool_call(value: ToolCall)
    ensures
        value.deep_view().id == value.id.deep_view(),
        value.deep_view().tool_type == value.tool_type.deep_view(),
        value.deep_view().function == value.function.deep_view(),
{
}

/// The model of a `FunctionDefinition` holds what the value holds.
pub proof fn law_model_of_function_definition(value: FunctionDefinition)
    ensures
        value.deep_view().name == value.name.deep_view(),
        value.deep_view().description == value.description.deep_view(),
        value.deep_view().parameters == value.parameters.deep_view(),
        value.deep_view().strict == value.strict,
{
}

/// The model of a `Tool` holds what the value holds.
pub proof fn law_model_of_tool(value: Tool)
    ensures
        value.deep_view().tool_type == value.tool_type.deep_view(),
        value.deep_view().function == value.function.deep_view(),
{
}

/// The model of a `ToolChoice` holds what the value holds.
pub proof fn law_model_of_tool_choice(value: ToolChoice)
    ensures
        match value {
            ToolChoice::Auto => value.deep_view() is Auto,
            ToolChoice::Required => value.deep_view() is Required,
            ToolChoice::Disabled => value.deep_view() is Disabled,
            ToolChoice::Function { name } => {
                &&& value.deep_view() matches ToolChoiceView::Function { name: got_name }
                &&& got_name == name.deep_view()
            },
            ToolChoice::AllowedTools { mode, tools } => {
                &&& value.deep_view() matches ToolChoiceView::AllowedTools {
                    mode: got_mode,
                    tools: got_tools,
                }
                &&& got_mode == mode.deep_view()
                &&& got_tools == tools.deep_view()
            },
        },
{
}

/// The model of a `JsonSchemaFormat` holds what the value holds.
pub proof fn law_model_of_json_schema_format(value: JsonSchemaFormat)
    ensures
        value.deep_view().name == value.name.deep_view(),
        value.deep_view().schema == value.schema.deep_view(),
        value.deep_view().strict == value.strict,
{
}

/// The model of a `ResponseFormat` holds what the value holds.
pub proof fn law_model_of_response_format(value: ResponseFormat)
    ensures
        match value {
            ResponseFormat::Text => value.deep_view() is Text,
            ResponseFormat::JsonObject => value.deep_view() is JsonObject,
            ResponseFormat::JsonSchema { json_schema } => {
                &&& value.deep_view() matches ResponseFormatView::JsonSchema {
                    json_schema: got_json_schema,
                }
                &&& got_json_schema == json_schema.deep_view()
            },
        },
{
}

/// The model of a `MessageContent` holds what the value holds.
pub proof fn law_model_of_message_content(value: MessageContent)
    ensures
        match value {
            MessageContent::Text(held) => {
                &&& value.deep_view() matches MessageContentView::Text(got)
                &&& got == held.deep_view()
            },
            MessageContent::Parts(held) => {
                &&& value.deep_view() matches MessageContentView::Parts(got)
                &&& got == held.deep_view()
            },
        },
{
}

/// The model of a `ChatMessage` holds what the value holds.
pub proof fn law_model_of_chat_message(value: ChatMessage)
    ensures
        match value {
            ChatMessage::System { content, name } => {
                &&& value.deep_view() matches ChatMessageView::System {
                    content: got_content,
                    name: got_name,
                }
                &&& got_content == content.deep_view()
                &&& got_name == name.deep_view()
            },
            ChatMessage::User { content, name } => {
                &&& value.deep_view() matches ChatMessageView::User {
                    content: got_content,
                    name: got_name,
                }
                &&& got_content == content.deep_view()
                &&& got_name == name.deep_view()
            },
            ChatMessage::Assistant { content, name, tool_calls, reasoning_content } => {
                &&& value.deep_view() matches ChatMessageView::Assistant {
                    content: got_content,
                    name: got_name,
                    tool_calls: got_tool_calls,
                    reasoning_content: got_reasoning_content,
                }
                &&& got_content == content.deep_view()
                &&& got_name == name.deep_view()
                &&& got_tool_calls == tool_calls.deep_view()
                &&& got_reasoning_content == reasoning_content.deep_view()
            },
            ChatMessage::Tool { content, tool_call_id } => {
                &&& value.deep_view() matches ChatMessageView::Tool {
                    content: got_content,
                    tool_call_id: got_tool_call_id,
                }
                &&& got_content == content.deep_view()
                &&& got_tool_call_id == tool_call_id.deep_view()
            },
        },
{
}

/// The model of a `ChatCompletionRequest` holds what the value holds.
pub proof fn law_model_of_chat_completion_request(value: ChatCompletionRequest)
    ensures
        value.deep_view().messages == value.messages.deep_view(),
        value.deep_view().model == value.model.deep_view(),
        value.deep_view().frequency_penalty == value.frequency_penalty,
        value.deep_view().logprobs == value.logprobs,
        value.deep_view().max_completion_tokens == value.max_completion_tokens,
        value.deep_view().max_tokens == value.max_tokens,
        value.deep_view().n == value.n,
        value.deep_view().parallel_tool_calls == value.parallel_tool_calls,
        value.deep_view().presence_penalty == value.presence_penalty,
        value.deep_view().response_format == value.response_format.deep_view(),
        value.deep_view().seed == value.seed,
        value.deep_view().skip_special_tokens == value.skip_special_tokens,
        value.deep_view().stop == value.stop.deep_view(),
        value.deep_view().stream == value.stream,
        value.deep_view().stream_options == value.stream_options,
        value.deep_view().temperature == value.temperature,
        value.deep_view().tool_choice == value.tool_choice.deep_view(),
        value.deep_view().tools == value.tools.deep_view(),
        value.deep_view().top_logprobs == value.top_logprobs,
        value.deep_view().top_p == value.top_p,
        value.deep_view().user == value.user.deep_view(),
{
}

/// The model of a `ChatCompletionMessage` holds what the value holds.
pub proof fn law_model_of_chat_completion_message(value: ChatCompletionMessage)
    ensures
        value.deep_view().role == value.role.deep_view(),
        value.deep_view().content == value.content.deep_view(),
        value.deep_view().tool_calls == value.tool_calls.deep_view(),
        value.deep_view().reasoning_content == value.reasoning_content.deep_view(),
{
}

/// The model of a `ChatChoice` holds what the value holds.
pub proof fn law_model_of_chat_choice(value: ChatChoice)
    ensures
        value.deep_view().index == value.index,
        value.deep_view().message == value.message.deep_view(),
        value.deep_view().logprobs == value.logprobs.deep_view(),
        value.deep_view().finish_reason == value.finish_reason.deep_view(),
{
}

/// The model of a `ChatCompletionResponse` holds what the value holds.
pub proof fn law_model_of_chat_completion_response(value: ChatCompletionResponse)
    ensures
        value.deep_view().id == value.id.deep_view(),
        value.deep_view().created == value.created,
        value.deep_view().model == value.model.deep_view(),
        value.deep_view().choices == value.choices.deep_view(),
        value.deep_view().usage == value.usage,
{
}

/// The model of a `ResponseImageUrlValue` holds what the value holds.
pub proof fn law_model_of_response_image_url_value(value: ResponseImageUrlValue)
    ensures
        match value {
            ResponseImageUrlValue::Url(held) => {
                &&& value.deep_view() matches ResponseImageUrlValueView::Url(got)
                &&& got == held.deep_view()
            },
            ResponseImageUrlValue::Object { url, detail } => {
                &&& value.deep_view() matches ResponseImageUrlValueView::Object {
                    url: got_url,
                    detail: got_detail,
                }
                &&& got_url == url.deep_view()
                &&& got_detail == detail.deep_view()
            },
        },
{
}

/// The model of a `ResponseContentPart` holds what the value holds.
pub proof fn law_model_of_response_content_part(value: ResponseContentPart)
    ensures
        match value {
            ResponseContentPart::InputText { text } => {
                &&& value.deep_view() matches ResponseContentPartView::InputText { text: got_text }
                &&& got_text == text.deep_view()
            },
            ResponseContentPart::OutputText { text, annotations, logprobs } => {
                &&& value.deep_view() matches ResponseContentPartView::OutputText {
                    text: got_text,
                    annotations: got_annotations,
                    logprobs: got_logprobs,
                }
                &&& got_text == text.deep_view()
                &&& got_annotations == annotations.deep_view()
                &&& got_logprobs == logprobs.deep_view()
            },
            ResponseContentPart::InputImage { image_url, detail } => {
                &&& value.deep_view() matches ResponseContentPartView::InputImage {
                    image_url: got_image_url,
                    detail: got_detail,
                }
                &&& got_image_url == image_url.deep_view()
                &&& got_detail == detail.deep_view()
            },
            ResponseContentPart::Unknown => value.deep_view() is Unknown,
        },
{
}

/// The model of a `StringOrContentParts` holds what the value holds.
pub proof fn law_model_of_string_or_content_parts(value: StringOrContentParts)
    ensures
        match value {
            StringOrContentParts::String(held) => {
                &&& value.deep_view() matches StringOrContentPartsView::String(got)
                &&& got == held.deep_view()
            },
            StringOrContentParts::Array(held) => {
                &&& value.deep_view() matches StringOrContentPartsView::Array(got)
                &&& got == held.deep_view()
            },
        },
{
}

/// The model of a `ResponseReasoningContent` holds what the value holds.
pub proof fn law_model_of_response_reasoning_content(value: ResponseReasoningContent)
    ensures
        match value {
            ResponseReasoningContent::ReasoningText { text } => {
                &&& value.deep_view() matches ResponseReasoningContentView::ReasoningText {
                    text: got_text,
                }
                &&& got_text == text.deep_view()
            },
        },
{
}

/// The model of a `FunctionCallOutputContent` holds what the value holds.
pub proof fn law_model_of_function_call_output_content(value: FunctionCallOutputContent)
    ensures
        match value {
            FunctionCallOutputContent::Text(held) => {
                &&& value.deep_view() matches FunctionCallOutputContentView::Text(got)
                &&& got == held.deep_view()
            },
            FunctionCallOutputContent::Parts(held) => {
                &&& value.deep_view() matches FunctionCallOutputContentView::Parts(got)
                &&& got == held.deep_view()
            },
        },
{
}

/// The model of a `ResponseInputOutputItem` holds what the value holds.
pub proof fn law_model_of_response_input_output_item(value: ResponseInputOutputItem)
    ensures
        match value {
            ResponseInputOutputItem::SimpleInputMessage { content, role, message_type } => {
                &&& value.deep_view() matches ResponseInputOutputItemView::SimpleInputMessage {
                    content: got_content,
                    role: got_role,
                    message_type: got_message_type,
                }
                &&& got_content == content.deep_view()
                &&& got_role == role.deep_view()
                &&& got_message_type == message_type.deep_view()
            },
            ResponseInputOutputItem::Message { id, role, content, status } => {
                &&& value.deep_view() matches ResponseInputOutputItemView::Message {
                    id: got_id,
                    role: got_role,
                    content: got_content,
                    status: got_status,
                }
                &&& got_id == id.deep_view()
                &&& got_role == role.deep_view()
                &&& got_content == content.deep_view()
                &&& got_status == status.deep_view()
            },
            ResponseInputOutputItem::FunctionToolCall {
                id,
                call_id,
                name,
                arguments,
                output,
                status,
            } => {
                &&& value.deep_view() matches ResponseInputOutputItemView::FunctionToolCall {
                    id: got_id,
                    call_id: got_call_id,
                    name: got_name,
                    arguments: got_arguments,
                    output: got_output,
                    status: got_status,
                }
                &&& got_id == id.deep_view()
                &&& got_call_id == call_id.deep_view()
                &&& got_name == name.deep_view()
                &&& got_arguments == arguments.deep_view()
                &&& got_output == output.deep_view()
                &&& got_status == status.deep_view()
            },
            ResponseInputOutputItem::Reasoning { id, summary, content, status } => {
                &&& value.deep_view() matches ResponseInputOutputItemView::Reasoning {
                    id: got_id,
                    summary: got_summary,
                    content: got_content,
                    status: got_status,
                }
                &&& got_id == id.deep_view()
                &&& got_summary == summary.deep_view()
                &&& got_content == content.deep_view()
                &&& got_status == status.deep_view()
            },
            ResponseInputOutputItem::FunctionCallOutput { id, call_id, output, status } => {
                &&& value.deep_view() matches ResponseInputOutputItemView::FunctionCallOutput {
                    id: got_id,
                    call_id: got_call_id,
                    output: got_output,
                    status: got_status,
                }
                &&& got_id == id.deep_view()
                &&& got_call_id == call_id.deep_view()
                &&& got_output == output.deep_view()
                &&& got_status == status.deep_view()
            },
        },
{
}

/// The model of a `ResponseInput` holds what the value holds.
pub proof fn law_model_of_response_input(value: ResponseInput)
    ensures
        match value {
            ResponseInput::Text(held) => {
                &&& value.deep_view() matches ResponseInputView::Text(got)
                &&& got == held.deep_view()
            },
            ResponseInput::Items(held) => {
                &&& value.deep_view() matches ResponseInputView::Items(got)
                &&& got == held.deep_view()
            },
        },
{
}

/// The model of a `TextFormat` holds what the value holds.
pub proof fn law_model_of_text_format(value: TextFormat)
    ensures
        match value {
            TextFormat::Text => value.deep_view() is Text,
            TextFormat::JsonObject => value.deep_view() is JsonObject,
            TextFormat::JsonSchema { name, schema, description, strict } => {
                &&& value.deep_view() matches TextFormatView::JsonSchema {
                    name: got_name,
                    schema: got_schema,
                    description: got_description,
                    strict: got_strict,
                }
                &&& got_name == name.deep_view()
                &&& got_schema == schema.deep_view()
                &&& got_description == description.deep_view()
                &&& got_strict == strict
            },
        },
{
}

/// The model of a `TextConfig` holds what the value holds.
pub proof fn law_model_of_text_config(value: TextConfig)
    ensures
        value.deep_view().format == value.format.deep_view(),
{
}

/// The model of a `ResponseTool` holds what the value holds.
pub proof fn law_model_of_response_tool(value: ResponseTool)
    ensures
        value.deep_view().tool_type == value.tool_type,
        value.deep_view().function == value.function.deep_view(),
        value.deep_view().server_url == value.server_url.deep_view(),
        value.deep_view().server_label == value.server_label.deep_view(),
{
}

/// The model of a `ResponsesRequest` holds what the value holds.
pub proof fn law_model_of_responses_request(value: ResponsesRequest)
    ensures
        value.deep_view().input == value.input.deep_view(),
        value.deep_view().model == value.model.deep_view(),
        value.deep_view().conversation == value.conversation.deep_view(),
        value.deep_view().instructions == value.instructions.deep_view(),
        value.deep_view().max_output_tokens == value.max_output_tokens,
        value.deep_view().parallel_tool_calls == value.parallel_tool_calls,
        value.deep_view().previous_response_id == value.previous_response_id.deep_view(),
        value.deep_view().stream == value.stream,
        value.deep_view().temperature == value.temperature,
        value.deep_view().text == value.text.deep_view(),
        value.deep_view().tool_choice == value.tool_choice.deep_view(),
        value.deep_view().tools == value.tools.deep_view(),
        value.deep_view().top_logprobs == value.top_logprobs,
        value.deep_view().top_p == value.top_p,
{
}

/// The model of a `ResponseOutputItem` holds what the value holds.
pub proof fn law_model_of_response_output_item(value: ResponseOutputItem)
    ensures
        match value {
            ResponseOutputItem::Message { id, role, content, status } => {
                &&& value.deep_view() matches ResponseOutputItemView::Message {
                    id: got_id,
                    role: got_role,
                    content: got_content,
                    status: got_status,
                }
                &&& got_id == id.deep_view()
                &&& got_role == role.deep_view()
                &&& got_content == content.deep_view()
                &&& got_status == status.deep_view()
            },
            ResponseOutputItem::Reasoning { id, summary, content, status } => {
                &&& value.deep_view() matches ResponseOutputItemView::Reasoning {
                    id: got_id,
                    summary: got_summary,
                    content: got_content,
                    status: got_status,
                }
                &&& got_id == id.deep_view()
                &&& got_summary == summary.deep_view()
                &&& got_content == content.deep_view()
                &&& got_status == status.deep_view()
            },
            ResponseOutputItem::FunctionToolCall {
                id,
                call_id,
                name,
                arguments,
                output,
                status,
            } => {
                &&& value.deep_view() matches ResponseOutputItemView::FunctionToolCall {
                    id: got_id,
                    call_id: got_call_id,
                    name: got_name,
                    arguments: got_arguments,
                    output: got_output,
                    status: got_status,
                }
                &&& got_id == id.deep_view()
                &&& got_call_id == call_id.deep_view()
                &&& got_name == name.deep_view()
                &&& got_arguments == arguments.deep_view()
                &&& got_output == output.deep_view()
                &&& got_status == status.deep_view()
            },
        },
{
}

/// The model of a `ResponsesResponse` holds what the value holds.
pub proof fn law_model_of_responses_response(value: ResponsesResponse)
    ensures
        value.deep_view().id == value.id.deep_view(),
        value.deep_view().model == value.model.deep_view(),
        value.deep_view().created_at == value.created_at,
        value.deep_view().status == value.status,
        value.deep_view().output == value.output.deep_view(),
        value.deep_view().instructions == value.instructions.deep_view(),
        value.deep_view().max_output_tokens == value.max_output_tokens,
        value.deep_view().parallel_tool_calls == value.parallel_tool_calls,
        value.deep_view().previous_response_id == value.previous_response_id.deep_view(),
        value.deep_view().temperature == value.temperature,
        value.deep_view().text == value.text.deep_view(),
        value.deep_view().tool_choice == value.tool_choice.deep_view(),
        value.deep_view().tools == value.tools.deep_view(),
        value.deep_view().top_p == value.top_p,
        value.deep_view().usage == value.usage,
{
}

} // verus!
