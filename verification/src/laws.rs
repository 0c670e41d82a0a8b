//! What holds of the conversions as a whole.

use crate::content::{
    chat_content, chat_part, chat_parts, has_image, part_text, text_of, tool_content,
};
use crate::protocols::chat::{
    ChatChoiceView, ChatCompletionMessageView, ChatCompletionResponseView, ChatMessageView,
    MessageContentView,
};
use crate::protocols::common::{
    ChatLogProbsView, ContentPartView, StreamOptions, ToolCallView, ToolView,
};
use crate::protocols::responses::{
    FunctionCallOutputContentView, ResponseContentPartView, ResponseInputOutputItemView,
    ResponseInputView, ResponseOutputItemView, ResponseReasoningContentView, ResponseToolView,
    ResponsesRequestView, ResponsesResponseView, TextConfigView, TextFormatView,
};
use crate::request::{
    call_message, chat_format, chat_request, is_void, item_messages, items_messages,
    message_of_role, reasoning_lines, reasoning_text, request_messages,
};
use crate::response::{call_item, output_items, response_for, signed_time, status_of};
use crate::tools::{extracted_tool, extracted_tools};
use vstd::prelude::*;

verus! {

broadcast use vstd::seq_lib::group_seq_properties;

/// The images of a message, in their order.
pub open spec fn images_of(content: MessageContentView) -> Seq<ContentPartView> {
    match content {
        MessageContentView::Text(_) => seq![],
        MessageContentView::Parts(parts) => parts.filter(
            |part: ContentPartView| part is ImageUrl,
        ),
    }
}

/// The text of a chat part; an image has none.
pub open spec fn chat_part_text(part: ContentPartView) -> Option<Seq<char>> {
    match part {
        ContentPartView::Text { text } => Some(text),
        ContentPartView::ImageUrl { .. } => None,
    }
}

/// The text of a message, whichever form its content has.
pub open spec fn message_text(content: MessageContentView) -> Seq<char> {
    match content {
        MessageContentView::Text(text) => text,
        MessageContentView::Parts(parts) => parts.filter_map(
            |part: ContentPartView| chat_part_text(part),
        ).flatten(),
    }
}

proof fn lemma_images_of_parts(parts: Seq<ResponseContentPartView>)
    ensures
        chat_parts(parts).filter(|part: ContentPartView| part is ImageUrl) == parts.filter(
            |part: ResponseContentPartView| part is InputImage,
        ).map_values(|part: ResponseContentPartView| chat_part(part)->0),
    decreases parts.len(),
{
    reveal(Seq::filter);
    if parts.len() > 0 {
        lemma_images_of_parts(parts.drop_last());
        let rest = chat_parts(parts.drop_last());
        if let Some(part) = chat_part(parts.last()) {
            assert(chat_parts(parts) == rest + seq![part]);
            assert((rest + seq![part]).drop_last() == rest);
        }
    }
}

/// No image is lost: the images of the converted content are the images of the parts, each
/// converted, in their order.
pub proof fn law_images_survive(parts: Seq<ResponseContentPartView>)
    ensures
        images_of(chat_content(parts)) == parts.filter(
            |part: ResponseContentPartView| part is InputImage,
        ).map_values(|part: ResponseContentPartView| chat_part(part)->0),
{
    lemma_images_of_parts(parts);
    if !has_image(parts) {
        let is_image = |part: ResponseContentPartView| part is InputImage;
        if parts.filter(is_image).len() > 0 {
            let image = parts.filter(is_image)[0];
            assert(parts.filter(is_image).contains(image));
            parts.lemma_filter_contains_rev(is_image, image);
            parts.lemma_filter_pred(is_image, 0);
        }
    }
}

proof fn lemma_texts_of_parts(parts: Seq<ResponseContentPartView>)
    ensures
        chat_parts(parts).filter_map(|part: ContentPartView| chat_part_text(part))
            == parts.filter_map(|part: ResponseContentPartView| part_text(part)),
    decreases parts.len(),
{
    if parts.len() > 0 {
        lemma_texts_of_parts(parts.drop_last());
        let rest = chat_parts(parts.drop_last());
        if let Some(part) = chat_part(parts.last()) {
            assert(chat_parts(parts) == rest + seq![part]);
            assert((rest + seq![part]).drop_last() == rest);
        }
    }
}

/// No text is lost: the text of the converted content is the text of the parts, with images and
/// without.
pub proof fn law_texts_survive(parts: Seq<ResponseContentPartView>)
    ensures
        message_text(chat_content(parts)) == text_of(parts),
{
    lemma_texts_of_parts(parts);
}

/// Only a part of an unknown kind has no chat equivalent, and with an image among the parts only
/// such parts are left out.
pub proof fn law_only_unknown_parts_are_dropped(parts: Seq<ResponseContentPartView>)
    ensures
        forall|part: ResponseContentPartView| #[trigger]
            chat_part(part) is None <==> part is Unknown,
        has_image(parts) ==> (chat_content(parts) matches MessageContentView::Parts(converted)
            && converted.len() == parts.filter(
            |part: ResponseContentPartView| !(part is Unknown),
        ).len()),
{
    lemma_number_of_chat_parts(parts);
}

proof fn lemma_number_of_chat_parts(parts: Seq<ResponseContentPartView>)
    ensures
        chat_parts(parts).len() == parts.filter(
            |part: ResponseContentPartView| !(part is Unknown),
        ).len(),
    decreases parts.len(),
{
    reveal(Seq::filter);
    if parts.len() > 0 {
        lemma_number_of_chat_parts(parts.drop_last());
    }
}

/// The converted content is more than plain text only where there is an image.
pub proof fn law_parts_only_with_an_image(parts: Seq<ResponseContentPartView>)
    ensures
        chat_content(parts) is Parts <==> has_image(parts),
{
}

/// What a tool gave back as parts keeps its images and its text as any other content does.
pub proof fn law_tool_outputs_survive(parts: Seq<ResponseContentPartView>)
    ensures
        ({
            let content = tool_content(FunctionCallOutputContentView::Parts(parts));
            &&& images_of(content) == parts.filter(
                |part: ResponseContentPartView| part is InputImage,
            ).map_values(|part: ResponseContentPartView| chat_part(part)->0)
            &&& message_text(content) == text_of(parts)
        }),
{
    law_images_survive(parts);
    law_texts_survive(parts);
}

/// A converted image always has a detail level.
pub proof fn law_images_have_a_detail(part: ResponseContentPartView)
    requires
        part is InputImage,
    ensures
        chat_part(part) matches Some(ContentPartView::ImageUrl { image_url })
            && image_url.detail is Some,
{
}

/// Whoever is neither the assistant nor the system speaks as the user.
pub proof fn law_other_roles_are_users(role: Seq<char>, content: MessageContentView)
    ensures
        message_of_role(role, content) is User <==> role != "assistant"@ && role != "system"@,
        message_of_role(role, content) is User ==> message_of_role(role, content) == (
        ChatMessageView::User { content, name: None }),
{
}

/// The item with nothing in it that says only where it comes from or how far it has come.
pub open spec fn bare(item: ResponseInputOutputItemView) -> ResponseInputOutputItemView {
    match item {
        ResponseInputOutputItemView::SimpleInputMessage { content, role, .. } => {
            ResponseInputOutputItemView::SimpleInputMessage { content, role, message_type: None }
        },
        ResponseInputOutputItemView::Message { role, content, .. } => {
            ResponseInputOutputItemView::Message { id: seq![], role, content, status: None }
        },
        ResponseInputOutputItemView::FunctionToolCall { call_id, name, arguments, output, .. } => {
            ResponseInputOutputItemView::FunctionToolCall {
                id: None,
                call_id,
                name,
                arguments,
                output,
                status: None,
            }
        },
        ResponseInputOutputItemView::Reasoning { content, .. } => {
            ResponseInputOutputItemView::Reasoning {
                id: seq![],
                summary: seq![],
                content,
                status: None,
            }
        },
        ResponseInputOutputItemView::FunctionCallOutput { call_id, output, .. } => {
            ResponseInputOutputItemView::FunctionCallOutput {
                id: None,
                call_id,
                output,
                status: None,
            }
        },
    }
}

/// The id of an item, its status, its type tag and the summary of a reasoning play no part in its
/// messages.
pub proof fn law_only_content_counts(item: ResponseInputOutputItemView)
    ensures
        item_messages(bare(item)) == item_messages(item),
{
}

/// The messages of a longer input are those of its beginning followed by those of its end: each
/// item is converted on its own, and the order stays.
pub proof fn law_items_keep_their_order(
    first: Seq<ResponseInputOutputItemView>,
    second: Seq<ResponseInputOutputItemView>,
)
    ensures
        items_messages(first + second) == items_messages(first) + items_messages(second),
{
    let convert = |item: ResponseInputOutputItemView| item_messages(item);
    assert((first + second).map_values(convert) == first.map_values(convert) + second.map_values(
        convert,
    ));
    vstd::seq_lib::lemma_flatten_concat(first.map_values(convert), second.map_values(convert));
}

/// Every item becomes at least one message.
pub proof fn law_every_item_speaks(items: Seq<ResponseInputOutputItemView>)
    ensures
        items_messages(items).len() >= items.len(),
    decreases items.len(),
{
    if items.len() > 0 {
        law_every_item_speaks(items.drop_last());
        law_items_keep_their_order(items.drop_last(), seq![items.last()]);
        lemma_single_item(items.last());
        assert(items.drop_last() + seq![items.last()] == items);
    }
}

proof fn lemma_single_item(item: ResponseInputOutputItemView)
    ensures
        items_messages(seq![item]) == item_messages(item),
{
    let convert = |item: ResponseInputOutputItemView| item_messages(item);
    assert(seq![item].map_values(convert) == seq![item_messages(item)]);
    seq![item_messages(item)].lemma_flatten_one_element();
}

/// A request is refused exactly when no message would come of it.
pub proof fn law_refused_without_messages(request: ResponsesRequestView)
    ensures
        is_void(request) <==> request_messages(request).len() == 0,
{
    if let ResponseInputView::Items(items) = request.input {
        law_every_item_speaks(items);
        if items.len() == 0 {
            assert(items_messages(items) == Seq::<ChatMessageView>::empty());
        }
    }
}

/// Instructions come before everything else, and change nothing of what follows.
pub proof fn law_instructions_lead(request: ResponsesRequestView, instructions: Seq<char>)
    ensures
        request_messages(
            ResponsesRequestView { instructions: Some(instructions), ..request },
        ) == seq![
            ChatMessageView::System {
                content: MessageContentView::Text(instructions),
                name: None,
            },
        ] + request_messages(ResponsesRequestView { instructions: None, ..request }),
{
}

/// A tool call and the output that answers it find each other: the call in the assistant's
/// message and the tool message carry the same id, whatever other ids and states the items have.
pub proof fn law_calls_and_outputs_correlate(
    call_id: Seq<char>,
    name: Seq<char>,
    arguments: Seq<char>,
    id: Option<Seq<char>>,
    status: Option<Seq<char>>,
    output_id: Option<Seq<char>>,
    output: FunctionCallOutputContentView,
    output_status: Option<Seq<char>>,
)
    ensures
        ({
            let calls = item_messages(
                ResponseInputOutputItemView::FunctionToolCall {
                    id,
                    call_id,
                    name,
                    arguments,
                    output: None,
                    status,
                },
            );
            let outputs = item_messages(
                ResponseInputOutputItemView::FunctionCallOutput {
                    id: output_id,
                    call_id,
                    output,
                    status: output_status,
                },
            );
            &&& calls.len() == 1
            &&& outputs.len() == 1
            &&& calls[0] matches ChatMessageView::Assistant { tool_calls: Some(tool_calls), .. }
            &&& outputs[0] matches ChatMessageView::Tool { tool_call_id, .. }
            &&& tool_calls.len() == 1
            &&& tool_calls[0].id == call_id
            &&& tool_call_id == call_id
        }),
{
}

/// A call that already carries its output becomes the same messages as the call followed by a
/// separate output.
pub proof fn law_attached_output_equals_separate_output(
    call_id: Seq<char>,
    name: Seq<char>,
    arguments: Seq<char>,
    text: Seq<char>,
    id: Option<Seq<char>>,
    status: Option<Seq<char>>,
    output_id: Option<Seq<char>>,
    output_status: Option<Seq<char>>,
)
    ensures
        items_messages(
            seq![
                ResponseInputOutputItemView::FunctionToolCall {
                    id,
                    call_id,
                    name,
                    arguments,
                    output: Some(text),
                    status,
                },
            ],
        ) == items_messages(
            seq![
                ResponseInputOutputItemView::FunctionToolCall {
                    id,
                    call_id,
                    name,
                    arguments,
                    output: None,
                    status,
                },
                ResponseInputOutputItemView::FunctionCallOutput {
                    id: output_id,
                    call_id,
                    output: FunctionCallOutputContentView::Text(text),
                    status: output_status,
                },
            ],
        ),
{
    let attached = ResponseInputOutputItemView::FunctionToolCall {
        id,
        call_id,
        name,
        arguments,
        output: Some(text),
        status,
    };
    let call = ResponseInputOutputItemView::FunctionToolCall {
        id,
        call_id,
        name,
        arguments,
        output: None,
        status,
    };
    let output = ResponseInputOutputItemView::FunctionCallOutput {
        id: output_id,
        call_id,
        output: FunctionCallOutputContentView::Text(text),
        status: output_status,
    };
    lemma_single_item(attached);
    lemma_single_item(call);
    lemma_single_item(output);
    law_items_keep_their_order(seq![call], seq![output]);
    assert(seq![call] + seq![output] == seq![call, output]);
}

/// The earlier response and the conversation that a request refers to play no part in the chat
/// request.
pub proof fn law_context_is_left_to_the_router(
    request: ResponsesRequestView,
    previous_response_id: Option<Seq<char>>,
    conversation: Option<Seq<char>>,
)
    ensures
        ({
            let other = ResponsesRequestView { previous_response_id, conversation, ..request };
            &&& chat_request(other) == chat_request(request)
            &&& is_void(other) == is_void(request)
        }),
{
}

/// A chat request always names a model.
pub proof fn law_model_is_named(request: ResponsesRequestView)
    ensures
        chat_request(request).model.len() > 0,
{
    reveal_strlit("unknown");
}

/// The token counts are asked for exactly when the answer is streamed.
pub proof fn law_streams_report_usage(request: ResponsesRequestView)
    ensures
        chat_request(request).stream <==> request.stream == Some(true),
        chat_request(request).stream <==> chat_request(request).stream_options is Some,
        chat_request(request).stream ==> chat_request(request).stream_options == Some(
            StreamOptions { include_usage: Some(true) },
        ),
{
}

/// A chat request offers the functions of the function tools and no others, and never an empty
/// list.
pub proof fn law_function_tools_are_offered(request: ResponsesRequestView, tool: ToolView)
    ensures
        ({
            let offered = chat_request(request).tools;
            &&& offered is Some ==> offered->0.len() > 0
            &&& (offered is Some && offered->0.contains(tool)) <==> (tool.tool_type == "function"@
                && exists|given: ResponseToolView|
                {
                    &&& request.tools is Some
                    &&& #[trigger] request.tools->0.contains(given)
                    &&& given.tool_type is Function
                    &&& given.function == Some(tool.function)
                })
        }),
{
    if let Some(tools) = request.tools {
        let convert = |given: ResponseToolView| extracted_tool(given, false);
        if extracted_tools(tools, false).contains(tool) {
            tools.lemma_filter_map_contains(convert, tool);
        }
        if exists|given: ResponseToolView| #[trigger]
            tools.contains(given) && given.tool_type is Function && given.function == Some(
                tool.function,
            ) && tool.tool_type == "function"@ {
            let given = choose|given: ResponseToolView| #[trigger]
                tools.contains(given) && given.tool_type is Function && given.function == Some(
                    tool.function,
                );
            lemma_extracted(tools, false, given, tool);
        }
    }
}

proof fn lemma_extracted(
    tools: Seq<ResponseToolView>,
    include_mcp: bool,
    given: ResponseToolView,
    tool: ToolView,
)
    requires
        tools.contains(given),
        extracted_tool(given, include_mcp) == Some(tool),
    ensures
        extracted_tools(tools, include_mcp).contains(tool),
    decreases tools.len(),
{
    let rest = tools.drop_last();
    let found = extracted_tools(rest, include_mcp);
    if tools.last() == given {
        assert(extracted_tools(tools, include_mcp) == found + seq![tool]);
        assert((found + seq![tool])[found.len() as int] == tool);
    } else {
        let i = choose|i: int| 0 <= i < tools.len() && tools[i] == given;
        assert(rest[i] == given);
        lemma_extracted(rest, include_mcp, given, tool);
        let j = choose|j: int| 0 <= j < found.len() && found[j] == tool;
        assert(extracted_tools(tools, include_mcp)[j] == tool);
    }
}

/// Leaving the MCP tools out when extracting is the same as not having been given any.
pub proof fn law_mcp_tools_can_be_left_out(tools: Seq<ResponseToolView>)
    ensures
        extracted_tools(tools, false) == extracted_tools(
            tools.filter(|tool: ResponseToolView| !(tool.tool_type is Mcp)),
            true,
        ),
    decreases tools.len(),
{
    reveal(Seq::filter);
    if tools.len() > 0 {
        let kept = |tool: ResponseToolView| !(tool.tool_type is Mcp);
        law_mcp_tools_can_be_left_out(tools.drop_last());
        if kept(tools.last()) {
            let rest = tools.drop_last().filter(kept);
            assert(rest.push(tools.last()).drop_last() == rest);
        }
    }
}

/// The description of a schema plays no part in the chat request.
pub proof fn law_schema_description_is_dropped(
    name: Seq<char>,
    schema: Seq<char>,
    strict: Option<bool>,
    description: Option<Seq<char>>,
    other: Option<Seq<char>>,
)
    ensures
        chat_format(
            Some(
                TextConfigView {
                    format: Some(TextFormatView::JsonSchema { name, schema, description, strict }),
                },
            ),
        ) == chat_format(
            Some(
                TextConfigView {
                    format: Some(
                        TextFormatView::JsonSchema { name, schema, description: other, strict },
                    ),
                },
            ),
        ),
{
}

/// A chat request says in which shape it wants its answer exactly when the request does.
pub proof fn law_format_is_kept(text: Option<TextConfigView>)
    ensures
        chat_format(text) is Some <==> text is Some && text->0.format is Some,
{
}

/// The settings of a request reach the chat request and the response alike.
pub proof fn law_settings_pass_through(
    request: ResponsesRequestView,
    chat: ChatCompletionResponseView,
    id: Option<Seq<char>>,
)
    ensures
        chat_request(request).temperature == request.temperature,
        chat_request(request).top_p == request.top_p,
        chat_request(request).max_completion_tokens == request.max_output_tokens,
        chat_request(request).parallel_tool_calls == request.parallel_tool_calls,
        chat_request(request).tool_choice == request.tool_choice,
        response_for(chat, request, id).temperature == request.temperature,
        response_for(chat, request, id).top_p == request.top_p,
        response_for(chat, request, id).max_output_tokens == request.max_output_tokens,
        response_for(chat, request, id).parallel_tool_calls == request.parallel_tool_calls,
        response_for(chat, request, id).tool_choice == request.tool_choice,
        response_for(chat, request, id).instructions == request.instructions,
        response_for(chat, request, id).previous_response_id == request.previous_response_id,
        response_for(chat, request, id).text == request.text,
        response_for(chat, request, id).tools == request.tools,
{
}

/// Only the first choice of an answer counts.
pub proof fn law_only_the_first_choice_counts(
    chat: ChatCompletionResponseView,
    request: ResponsesRequestView,
    id: Option<Seq<char>>,
)
    requires
        chat.choices.len() > 0,
    ensures
        response_for(chat, request, id) == response_for(
            ChatCompletionResponseView { choices: seq![chat.choices[0]], ..chat },
            request,
            id,
        ),
{
}

/// A response waits for its tools exactly when the generation ended with tool calls, has failed
/// exactly when it ended with a failure or an error, and is complete otherwise.
pub proof fn law_status_follows_the_finish_reason(finish_reason: Option<Seq<char>>)
    ensures
        status_of(finish_reason) is InProgress <==> finish_reason == Some("tool_calls"@),
        status_of(finish_reason) is Failed <==> (finish_reason == Some("failed"@) || finish_reason
            == Some("error"@)),
{
    reveal_strlit("stop");
    reveal_strlit("length");
    reveal_strlit("tool_calls");
    reveal_strlit("failed");
    reveal_strlit("error");
    assert("stop"@.len() == 4 && "error"@.len() == 5 && "tool_calls"@.len() == 10);
    assert("length"@.len() == 6 && "length"@[0] == 'l');
    assert("failed"@.len() == 6 && "failed"@[0] == 'f');
}

/// The tool calls of a choice.
pub open spec fn calls_of(choice: ChatChoiceView) -> Seq<ToolCallView> {
    match choice.message.tool_calls {
        Some(calls) => calls,
        None => seq![],
    }
}

/// The output holds one item for the text and one for the reasoning, each unless it is empty, and
/// after them one item for each tool call, in the order of the calls.
pub proof fn law_output_is_complete(response_id: Seq<char>, choice: ChatChoiceView)
    ensures
        ({
            let output = output_items(response_id, choice);
            let calls = calls_of(choice);
            let texts: int = if choice.message.content is Some
                && choice.message.content->0.len() > 0 {
                1
            } else {
                0
            };
            let reasonings: int = if choice.message.reasoning_content is Some
                && choice.message.reasoning_content->0.len() > 0 {
                1
            } else {
                0
            };
            &&& output.len() == texts + reasonings + calls.len()
            &&& forall|i: int|
                0 <= i < texts + reasonings ==> !(#[trigger] output[i] is FunctionToolCall)
            &&& forall|i: int|
                0 <= i < calls.len() ==> output[texts + reasonings + i] == call_item(
                    #[trigger] calls[i],
                )
        }),
{
}

/// An id that is given replaces the id of the response and nothing else.
pub proof fn law_given_id_replaces_only_the_id(
    chat: ChatCompletionResponseView,
    request: ResponsesRequestView,
    id: Seq<char>,
)
    ensures
        response_for(chat, request, None).id == chat.id,
        response_for(chat, request, Some(id)) == (ResponsesResponseView {
            id,
            ..response_for(chat, request, None)
        }),
{
}

/// The time of creation stays what it was, unless it lies beyond what a signed number can hold.
pub proof fn law_creation_time_is_kept(
    chat: ChatCompletionResponseView,
    request: ResponsesRequestView,
    id: Option<Seq<char>>,
)
    ensures
        response_for(chat, request, id).created_at == signed_time(chat.created),
        chat.created <= i64::MAX ==> response_for(chat, request, id).created_at == chat.created,
{
}

/// The input item with which a client hands an output item back in its next request.
pub open spec fn handed_back(item: ResponseOutputItemView) -> ResponseInputOutputItemView {
    match item {
        ResponseOutputItemView::Message { id, role, content, status } => {
            ResponseInputOutputItemView::Message { id, role, content, status: Some(status) }
        },
        ResponseOutputItemView::Reasoning { id, summary, content, status } => {
            ResponseInputOutputItemView::Reasoning { id, summary, content, status }
        },
        ResponseOutputItemView::FunctionToolCall {
            id,
            call_id,
            name,
            arguments,
            output,
            status,
        } => ResponseInputOutputItemView::FunctionToolCall {
            id: Some(id),
            call_id,
            name,
            arguments,
            output,
            status: Some(status),
        },
    }
}

/// What the assistant said in a choice, as messages of the conversation that goes on.
pub open spec fn said(choice: ChatChoiceView) -> Seq<ChatMessageView> {
    let message = match choice.message.content {
        Some(text) if text.len() > 0 => seq![
            ChatMessageView::Assistant {
                content: Some(MessageContentView::Text(text)),
                name: None,
                tool_calls: None,
                reasoning_content: None,
            },
        ],
        _ => seq![],
    };
    let reasoning = match choice.message.reasoning_content {
        Some(text) if text.len() > 0 => seq![
            ChatMessageView::Assistant {
                content: None,
                name: None,
                tool_calls: None,
                reasoning_content: Some(text),
            },
        ],
        _ => seq![],
    };
    let calls = match choice.message.tool_calls {
        Some(calls) => calls.map_values(
            |call: ToolCallView|
                call_message(
                    call.id,
                    call.function.name,
                    match call.function.arguments {
                        Some(arguments) => arguments,
                        None => seq![],
                    },
                ),
        ),
        None => seq![],
    };
    message + reasoning + calls
}

proof fn lemma_calls_handed_back(calls: Seq<ToolCallView>)
    ensures
        items_messages(calls.map_values(|call: ToolCallView| handed_back(call_item(call))))
            == calls.map_values(
            |call: ToolCallView|
                call_message(
                    call.id,
                    call.function.name,
                    match call.function.arguments {
                        Some(arguments) => arguments,
                        None => seq![],
                    },
                ),
        ),
    decreases calls.len(),
{
    let back = |call: ToolCallView| handed_back(call_item(call));
    if calls.len() == 0 {
        assert(calls.map_values(back) == Seq::<ResponseInputOutputItemView>::empty());
        assert(items_messages(seq![]) == Seq::<ChatMessageView>::empty());
    } else {
        lemma_calls_handed_back(calls.drop_last());
        law_items_keep_their_order(calls.drop_last().map_values(back), seq![back(calls.last())]);
        lemma_single_item(back(calls.last()));
        assert(calls.map_values(back) == calls.drop_last().map_values(back) + seq![
            back(calls.last()),
        ]);
    }
}

/// Handed back in the next request, the output of a response becomes again what the assistant
/// said: its text, its reasoning and its tool calls, each under the id it had.
pub proof fn law_output_can_be_handed_back(response_id: Seq<char>, choice: ChatChoiceView)
    ensures
        items_messages(
            output_items(response_id, choice).map_values(
                |item: ResponseOutputItemView| handed_back(item),
            ),
        ) == said(choice),
{
    let back = |item: ResponseOutputItemView| handed_back(item);
    let message = output_items(
        response_id,
        ChatChoiceView {
            message: ChatCompletionMessageView {
                reasoning_content: None,
                tool_calls: None,
                ..choice.message
            },
            ..choice
        },
    );
    let reasoning = output_items(
        response_id,
        ChatChoiceView {
            message: ChatCompletionMessageView {
                content: None,
                tool_calls: None,
                ..choice.message
            },
            ..choice
        },
    );
    let calls = output_items(
        response_id,
        ChatChoiceView {
            message: ChatCompletionMessageView {
                content: None,
                reasoning_content: None,
                ..choice.message
            },
            ..choice
        },
    );
    assert(output_items(response_id, choice).map_values(back) == message.map_values(back)
        + reasoning.map_values(back) + calls.map_values(back));
    law_items_keep_their_order(
        message.map_values(back) + reasoning.map_values(back),
        calls.map_values(back),
    );
    law_items_keep_their_order(message.map_values(back), reasoning.map_values(back));
    assert(items_messages(seq![]) == Seq::<ChatMessageView>::empty());
    if message.len() > 0 {
        let text = choice.message.content->0;
        assert(message.map_values(back) == seq![back(message[0])]);
        lemma_single_item(back(message[0]));
        lemma_single_text(text, choice.logprobs);
    } else {
        assert(message.map_values(back) == Seq::<ResponseInputOutputItemView>::empty());
    }
    if reasoning.len() > 0 {
        let text = choice.message.reasoning_content->0;
        assert(reasoning.map_values(back) == seq![back(reasoning[0])]);
        lemma_single_item(back(reasoning[0]));
        lemma_single_step(text);
    } else {
        assert(reasoning.map_values(back) == Seq::<ResponseInputOutputItemView>::empty());
    }
    if let Some(tool_calls) = choice.message.tool_calls {
        assert(calls.map_values(back) == tool_calls.map_values(
            |call: ToolCallView| handed_back(call_item(call)),
        ));
        lemma_calls_handed_back(tool_calls);
    } else {
        assert(calls.map_values(back) == Seq::<ResponseInputOutputItemView>::empty());
    }
}

proof fn lemma_single_text(text: Seq<char>, logprobs: Option<ChatLogProbsView>)
    ensures
        chat_content(
            seq![ResponseContentPartView::OutputText { text, annotations: seq![], logprobs }],
        ) == MessageContentView::Text(text),
{
    let part = ResponseContentPartView::OutputText { text, annotations: seq![], logprobs };
    let convert = |part: ResponseContentPartView| part_text(part);
    Seq::lemma_filter_map_singleton(part, convert);
    seq![text].lemma_flatten_one_element();
}

proof fn lemma_single_step(text: Seq<char>)
    ensures
        reasoning_lines(seq![ResponseReasoningContentView::ReasoningText { text }]) == text,
{
    let steps = seq![ResponseReasoningContentView::ReasoningText { text }];
    let lines = steps.map_values(|step: ResponseReasoningContentView| reasoning_text(step));
    let behind = |line: Seq<char>| "\n"@ + line;
    assert(lines.skip(1).map_values(behind) == Seq::<Seq<char>>::empty());
}

} // verus!
