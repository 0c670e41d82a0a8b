//! What a chat request owes to the request it is made of.

use crate::content::{chat_content, chat_part, text_of};
use crate::laws::{images_of, law_images_survive, law_texts_survive, message_text};
use crate::protocols::chat::{ChatCompletionRequestView, ChatMessageView, MessageContentView};
use crate::protocols::common::{
    FunctionCallResponseView, FunctionDefinitionView, JsonSchemaFormatView, ResponseFormatView,
    ToolCallView, ToolView,
};
use crate::protocols::responses::{
    FunctionCallOutputContentView, ResponseContentPartView, ResponseInputOutputItemView,
    ResponseInputView, ResponseReasoningContentView, ResponseToolType, ResponseToolView,
    ResponsesRequestView, StringOrContentPartsView, TextConfigView, TextFormatView,
};
use crate::protocols::UNKNOWN_MODEL_ID;
use crate::request::{
    chat_format, chat_request, is_void, item_messages, items_messages, message_of_role,
    reasoning_text,
};
use crate::text::joined;
use crate::tools::{extracted_tool, extracted_tools};
use vstd::prelude::*;

verus! {

broadcast use vstd::seq_lib::group_seq_properties;

/// A model that is named is the model that is asked; only where none is named the stand-in
/// is.
pub proof fn law_named_model_is_asked(request: ResponsesRequestView)
    ensures
        request.model.len() > 0 ==> chat_request(request).model == request.model,
        request.model.len() == 0 ==> chat_request(request).model == UNKNOWN_MODEL_ID@,
        UNKNOWN_MODEL_ID@ == "unknown"@,
{
}

/// Every option that is not taken from the request stays unset, but special tokens are always
/// skipped.
pub proof fn law_other_options_stay_unset(request: ResponsesRequestView)
    ensures
        chat_request(request).top_logprobs == request.top_logprobs,
        chat_request(request).skip_special_tokens,
        chat_request(request).frequency_penalty is None,
        !chat_request(request).logprobs,
        chat_request(request).max_tokens is None,
        chat_request(request).n is None,
        chat_request(request).presence_penalty is None,
        chat_request(request).seed is None,
        chat_request(request).stop is None,
        chat_request(request).user is None,
{
}

/// A fresh request of either kind says nothing and sets nothing.
pub proof fn law_fresh_requests_are_empty()
    ensures
        ({
            let chat = ChatCompletionRequestView::unset();
            &&& chat.messages.len() == 0
            &&& chat.model.len() == 0
            &&& chat.frequency_penalty is None
            &&& !chat.logprobs
            &&& chat.max_completion_tokens is None
            &&& chat.max_tokens is None
            &&& chat.n is None
            &&& chat.parallel_tool_calls is None
            &&& chat.presence_penalty is None
            &&& chat.response_format is None
            &&& chat.seed is None
            &&& !chat.skip_special_tokens
            &&& chat.stop is None
            &&& !chat.stream
            &&& chat.stream_options is None
            &&& chat.temperature is None
            &&& chat.tool_choice is None
            &&& chat.tools is None
            &&& chat.top_logprobs is None
            &&& chat.top_p is None
            &&& chat.user is None
        }),
        ({
            let request = ResponsesRequestView::unset();
            &&& request.input matches ResponseInputView::Text(text)
            &&& text.len() == 0
            &&& request.model.len() == 0
            &&& request.conversation is None
            &&& request.instructions is None
            &&& request.max_output_tokens is None
            &&& request.parallel_tool_calls is None
            &&& request.previous_response_id is None
            &&& request.stream is None
            &&& request.temperature is None
            &&& request.text is None
            &&& request.tool_choice is None
            &&& request.tools is None
            &&& request.top_logprobs is None
            &&& request.top_p is None
        }),
{
}

/// Each wanted shape of the answer is wanted of the chat answer too, a schema with its name, its
/// document and its strictness.
pub proof fn law_formats_keep_their_shape(
    name: Seq<char>,
    schema: Seq<char>,
    description: Option<Seq<char>>,
    strict: Option<bool>,
)
    ensures
        chat_format(None) is None,
        chat_format(Some(TextConfigView { format: None })) is None,
        chat_format(Some(TextConfigView { format: Some(TextFormatView::Text) })) == Some(
            ResponseFormatView::Text,
        ),
        chat_format(Some(TextConfigView { format: Some(TextFormatView::JsonObject) })) == Some(
            ResponseFormatView::JsonObject,
        ),
        chat_format(
            Some(
                TextConfigView {
                    format: Some(TextFormatView::JsonSchema { name, schema, description, strict }),
                },
            ),
        ) == Some(
            ResponseFormatView::JsonSchema {
                json_schema: JsonSchemaFormatView { name, schema, strict },
            },
        ),
{
}

/// The shape that a chat request wants is the shape that its request wants, whatever else the
/// request says.
pub proof fn law_requests_want_their_format(request: ResponsesRequestView)
    ensures
        chat_request(request).response_format == chat_format(request.text),
{
}

/// The assistant speaks as the assistant, the system as the system, and everybody else as the
/// user; the content is what was said, and nothing is added to it.
pub open spec fn says(
    message: ChatMessageView,
    role: Seq<char>,
    content: MessageContentView,
) -> bool {
    &&& role == "assistant"@ ==> message == (ChatMessageView::Assistant {
        content: Some(content),
        name: None,
        tool_calls: None,
        reasoning_content: None,
    })
    &&& role == "system"@ ==> message == (ChatMessageView::System { content, name: None })
    &&& role != "assistant"@ && role != "system"@ ==> message == (ChatMessageView::User {
        content,
        name: None,
    })
}

proof fn lemma_roles_differ()
    ensures
        "assistant"@ != "system"@,
        "user"@ != "assistant"@,
        "user"@ != "system"@,
{
    reveal_strlit("assistant");
    reveal_strlit("system");
    reveal_strlit("user");
    assert("assistant"@.len() == 9 && "system"@.len() == 6 && "user"@.len() == 4);
}

/// Everybody speaks in their own role.
pub proof fn law_roles_say_their_content(role: Seq<char>, content: MessageContentView)
    ensures
        says(message_of_role(role, content), role, content),
        message_of_role("user"@, content) == (ChatMessageView::User { content, name: None }),
{
    lemma_roles_differ();
}

/// The request with these items as its input and without instructions.
pub open spec fn asking(
    request: ResponsesRequestView,
    items: Seq<ResponseInputOutputItemView>,
) -> ResponsesRequestView {
    ResponsesRequestView { instructions: None, input: ResponseInputView::Items(items), ..request }
}

proof fn lemma_asking_one(request: ResponsesRequestView, item: ResponseInputOutputItemView)
    ensures
        chat_request(asking(request, seq![item])).messages == item_messages(item),
{
    let convert = |item: ResponseInputOutputItemView| item_messages(item);
    assert(seq![item].map_values(convert) == seq![item_messages(item)]);
    seq![item_messages(item)].lemma_flatten_one_element();
}

/// The messages of a longer input are those of its beginning followed by those of its end, and an
/// input without items has none.
pub proof fn law_longer_inputs_say_more(
    request: ResponsesRequestView,
    first: Seq<ResponseInputOutputItemView>,
    second: Seq<ResponseInputOutputItemView>,
)
    ensures
        chat_request(asking(request, seq![])).messages.len() == 0,
        chat_request(asking(request, first + second)).messages == chat_request(
            asking(request, first),
        ).messages + chat_request(asking(request, second)).messages,
{
    crate::laws::law_items_keep_their_order(first, second);
    assert(items_messages(seq![]) == Seq::<ChatMessageView>::empty());
}

/// Instructions become one leading system message, and a text one message of the user.
pub proof fn law_instructions_and_text_are_said(
    request: ResponsesRequestView,
    instructions: Seq<char>,
    text: Seq<char>,
)
    ensures
        chat_request(
            ResponsesRequestView { instructions: Some(instructions), ..request },
        ).messages == seq![
            ChatMessageView::System {
                content: MessageContentView::Text(instructions),
                name: None,
            },
        ] + chat_request(ResponsesRequestView { instructions: None, ..request }).messages,
        chat_request(
            ResponsesRequestView {
                instructions: None,
                input: ResponseInputView::Text(text),
                ..request
            },
        ).messages == seq![
            ChatMessageView::User { content: MessageContentView::Text(text), name: None },
        ],
{
}

/// A request is refused exactly when its chat request would say nothing, and so only without
/// instructions and with an empty list of items.
pub proof fn law_refused_when_nothing_is_said(request: ResponsesRequestView)
    ensures
        is_void(request) <==> chat_request(request).messages.len() == 0,
        is_void(request) <==> request.instructions is None && request.input is Items
            && request.input->Items_0.len() == 0,
{
    crate::laws::law_refused_without_messages(request);
}

/// A message becomes one message in its role, with its content converted.
pub proof fn law_messages_are_said(
    request: ResponsesRequestView,
    id: Seq<char>,
    role: Seq<char>,
    content: Seq<ResponseContentPartView>,
    status: Option<Seq<char>>,
)
    ensures
        ({
            let item = ResponseInputOutputItemView::Message { id, role, content, status };
            let said = chat_request(asking(request, seq![item])).messages;
            said.len() == 1 && says(said[0], role, chat_content(content))
        }),
{
    lemma_asking_one(
        request,
        ResponseInputOutputItemView::Message { id, role, content, status },
    );
    lemma_roles_differ();
}

/// A message in the short form says its text as it stands; given as parts, it becomes the same as
/// a message in the full form.
pub proof fn law_short_messages_are_said(
    request: ResponsesRequestView,
    id: Seq<char>,
    role: Seq<char>,
    text: Seq<char>,
    content: Seq<ResponseContentPartView>,
    message_type: Option<Seq<char>>,
    status: Option<Seq<char>>,
)
    ensures
        ({
            let short = ResponseInputOutputItemView::SimpleInputMessage {
                content: StringOrContentPartsView::String(text),
                role,
                message_type,
            };
            let said = chat_request(asking(request, seq![short])).messages;
            said.len() == 1 && says(said[0], role, MessageContentView::Text(text))
        }),
        ({
            let short = ResponseInputOutputItemView::SimpleInputMessage {
                content: StringOrContentPartsView::Array(content),
                role,
                message_type,
            };
            let full = ResponseInputOutputItemView::Message { id, role, content, status };
            chat_request(asking(request, seq![short])).messages == chat_request(
                asking(request, seq![full]),
            ).messages
        }),
{
    lemma_asking_one(
        request,
        ResponseInputOutputItemView::SimpleInputMessage {
            content: StringOrContentPartsView::String(text),
            role,
            message_type,
        },
    );
    lemma_asking_one(
        request,
        ResponseInputOutputItemView::SimpleInputMessage {
            content: StringOrContentPartsView::Array(content),
            role,
            message_type,
        },
    );
    lemma_asking_one(
        request,
        ResponseInputOutputItemView::Message { id, role, content, status },
    );
    lemma_roles_differ();
}

/// What a message says, whoever says it.
pub open spec fn content_of(message: ChatMessageView) -> Option<MessageContentView> {
    match message {
        ChatMessageView::System { content, .. } => Some(content),
        ChatMessageView::User { content, .. } => Some(content),
        ChatMessageView::Assistant { content, .. } => content,
        ChatMessageView::Tool { content, .. } => Some(content),
    }
}

/// Whether the request says the parts in one message, with every image and all of the text.
pub open spec fn says_parts(
    request: ResponsesRequestView,
    item: ResponseInputOutputItemView,
    parts: Seq<ResponseContentPartView>,
) -> bool {
    let said = chat_request(asking(request, seq![item])).messages;
    &&& said.len() == 1
    &&& content_of(said[0]) matches Some(content)
    &&& images_of(content) == parts.filter(
        |part: ResponseContentPartView| part is InputImage,
    ).map_values(|part: ResponseContentPartView| chat_part(part)->0)
    &&& message_text(content) == text_of(parts)
}

/// Images and texts reach the chat request from every item that holds content parts.
pub proof fn law_parts_reach_the_chat_request(
    request: ResponsesRequestView,
    id: Seq<char>,
    call_id: Seq<char>,
    role: Seq<char>,
    parts: Seq<ResponseContentPartView>,
    message_type: Option<Seq<char>>,
    output_id: Option<Seq<char>>,
    status: Option<Seq<char>>,
)
    ensures
        says_parts(
            request,
            ResponseInputOutputItemView::Message { id, role, content: parts, status },
            parts,
        ),
        says_parts(
            request,
            ResponseInputOutputItemView::SimpleInputMessage {
                content: StringOrContentPartsView::Array(parts),
                role,
                message_type,
            },
            parts,
        ),
        says_parts(
            request,
            ResponseInputOutputItemView::FunctionCallOutput {
                id: output_id,
                call_id,
                output: FunctionCallOutputContentView::Parts(parts),
                status,
            },
            parts,
        ),
{
    law_images_survive(parts);
    law_texts_survive(parts);
    lemma_asking_one(
        request,
        ResponseInputOutputItemView::Message { id, role, content: parts, status },
    );
    lemma_asking_one(
        request,
        ResponseInputOutputItemView::SimpleInputMessage {
            content: StringOrContentPartsView::Array(parts),
            role,
            message_type,
        },
    );
    lemma_asking_one(
        request,
        ResponseInputOutputItemView::FunctionCallOutput {
            id: output_id,
            call_id,
            output: FunctionCallOutputContentView::Parts(parts),
            status,
        },
    );
}

/// A tool call is repeated as the assistant's decision to make it, under the id of the call; an
/// output that it carries follows as the tool's message under the same id.
pub proof fn law_tool_calls_are_repeated(
    request: ResponsesRequestView,
    id: Option<Seq<char>>,
    call_id: Seq<char>,
    name: Seq<char>,
    arguments: Seq<char>,
    output: Option<Seq<char>>,
    status: Option<Seq<char>>,
)
    ensures
        ({
            let item = ResponseInputOutputItemView::FunctionToolCall {
                id,
                call_id,
                name,
                arguments,
                output,
                status,
            };
            let said = chat_request(asking(request, seq![item])).messages;
            &&& said.len() == (if output is Some {
                2int
            } else {
                1int
            })
            &&& said[0] matches ChatMessageView::Assistant {
                content: None,
                name: None,
                tool_calls: Some(calls),
                reasoning_content: None,
            }
            &&& calls.len() == 1
            &&& calls[0] == (ToolCallView {
                id: call_id,
                tool_type: "function"@,
                function: FunctionCallResponseView { name, arguments: Some(arguments) },
            })
            &&& output is Some ==> said[1] == (ChatMessageView::Tool {
                content: MessageContentView::Text(output->0),
                tool_call_id: call_id,
            })
        }),
{
    lemma_asking_one(
        request,
        ResponseInputOutputItemView::FunctionToolCall {
            id,
            call_id,
            name,
            arguments,
            output,
            status,
        },
    );
}

/// A tool's output becomes the tool's message under the id of the call: a text as it stands, parts
/// as the content that they would be in a message.
pub proof fn law_tool_outputs_are_repeated(
    request: ResponsesRequestView,
    id: Option<Seq<char>>,
    call_id: Seq<char>,
    text: Seq<char>,
    parts: Seq<ResponseContentPartView>,
    status: Option<Seq<char>>,
)
    ensures
        ({
            let item = ResponseInputOutputItemView::FunctionCallOutput {
                id,
                call_id,
                output: FunctionCallOutputContentView::Text(text),
                status,
            };
            chat_request(asking(request, seq![item])).messages == seq![
                ChatMessageView::Tool {
                    content: MessageContentView::Text(text),
                    tool_call_id: call_id,
                },
            ]
        }),
        ({
            let item = ResponseInputOutputItemView::FunctionCallOutput {
                id,
                call_id,
                output: FunctionCallOutputContentView::Parts(parts),
                status,
            };
            chat_request(asking(request, seq![item])).messages == seq![
                ChatMessageView::Tool { content: chat_content(parts), tool_call_id: call_id },
            ]
        }),
{
    lemma_asking_one(
        request,
        ResponseInputOutputItemView::FunctionCallOutput {
            id,
            call_id,
            output: FunctionCallOutputContentView::Text(text),
            status,
        },
    );
    lemma_asking_one(
        request,
        ResponseInputOutputItemView::FunctionCallOutput {
            id,
            call_id,
            output: FunctionCallOutputContentView::Parts(parts),
            status,
        },
    );
}

/// The steps of a reasoning become the reasoning of one message of the assistant, one step to a
/// line.
pub proof fn law_reasoning_is_repeated_line_by_line(
    request: ResponsesRequestView,
    id: Seq<char>,
    summary: Seq<Seq<char>>,
    steps: Seq<Seq<char>>,
    status: Option<Seq<char>>,
)
    ensures
        ({
            let item = ResponseInputOutputItemView::Reasoning {
                id,
                summary,
                content: steps.map_values(
                    |text: Seq<char>| ResponseReasoningContentView::ReasoningText { text },
                ),
                status,
            };
            chat_request(asking(request, seq![item])).messages == seq![
                ChatMessageView::Assistant {
                    content: None,
                    name: None,
                    tool_calls: None,
                    reasoning_content: Some(joined(steps, "\n"@)),
                },
            ]
        }),
{
    let content = steps.map_values(
        |text: Seq<char>| ResponseReasoningContentView::ReasoningText { text },
    );
    assert(content.map_values(|step: ResponseReasoningContentView| reasoning_text(step)) == steps);
    lemma_asking_one(
        request,
        ResponseInputOutputItemView::Reasoning { id, summary, content, status },
    );
}

/// Tools are extracted one by one, in their order.
pub proof fn law_tools_keep_their_order(
    first: Seq<ResponseToolView>,
    second: Seq<ResponseToolView>,
    include_mcp: bool,
)
    ensures
        extracted_tools(seq![], include_mcp).len() == 0,
        extracted_tools(first + second, include_mcp) == extracted_tools(first, include_mcp)
            + extracted_tools(second, include_mcp),
    decreases second.len(),
{
    if second.len() == 0 {
        assert(first + second == first);
    } else {
        law_tools_keep_their_order(first, second.drop_last(), include_mcp);
        assert((first + second).drop_last() == first + second.drop_last());
    }
}

/// A function tool hands its function on, an MCP tool only if asked for, a hosted tool never; a
/// tool that carries no function hands nothing on.
pub proof fn law_a_single_tool_is_extracted(
    tool: ResponseToolView,
    function: FunctionDefinitionView,
    include_mcp: bool,
)
    ensures
        ({
            let offering = |tool_type: ResponseToolType| ResponseToolView {
                tool_type,
                function: Some(function),
                ..tool
            };
            let offered = seq![ToolView { tool_type: "function"@, function }];
            &&& extracted_tools(seq![offering(ResponseToolType::Function)], include_mcp) == offered
            &&& extracted_tools(seq![offering(ResponseToolType::Mcp)], true) == offered
            &&& extracted_tools(seq![offering(ResponseToolType::Mcp)], false).len() == 0
            &&& extracted_tools(
                seq![offering(ResponseToolType::WebSearchPreview)],
                include_mcp,
            ).len() == 0
            &&& extracted_tools(
                seq![offering(ResponseToolType::CodeInterpreter)],
                include_mcp,
            ).len() == 0
        }),
        tool.function is None ==> extracted_tools(seq![tool], include_mcp).len() == 0,
{
    let convert = |given: ResponseToolView| extracted_tool(given, include_mcp);
    let without = |given: ResponseToolView| extracted_tool(given, false);
    let with = |given: ResponseToolView| extracted_tool(given, true);
    let offering = |tool_type: ResponseToolType| ResponseToolView {
        tool_type,
        function: Some(function),
        ..tool
    };
    Seq::lemma_filter_map_singleton(tool, convert);
    Seq::lemma_filter_map_singleton(offering(ResponseToolType::Function), convert);
    Seq::lemma_filter_map_singleton(offering(ResponseToolType::Mcp), with);
    Seq::lemma_filter_map_singleton(offering(ResponseToolType::Mcp), without);
    Seq::lemma_filter_map_singleton(offering(ResponseToolType::WebSearchPreview), convert);
    Seq::lemma_filter_map_singleton(offering(ResponseToolType::CodeInterpreter), convert);
}

/// A chat request offers the tools that are extracted without the MCP tools: all of them in their
/// order, or no list at all where there are none.
pub proof fn law_extracted_tools_are_offered(request: ResponsesRequestView)
    ensures
        request.tools is None ==> chat_request(request).tools is None,
        request.tools matches Some(tools) ==> match chat_request(request).tools {
            Some(offered) => offered == extracted_tools(tools, false) && offered.len() > 0,
            None => extracted_tools(tools, false).len() == 0,
        },
{
}

} // verus!
