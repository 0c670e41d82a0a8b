//! What a response owes to the answer and the request it is made of.

use crate::protocols::chat::{ChatChoiceView, ChatCompletionResponseView};
use crate::protocols::responses::{
    ResponseContentPartView, ResponseOutputItemView, ResponseReasoningContentView,
    ResponsesRequestView, ResponsesResponseView, ResponsesUsage,
};
use crate::response::{output_items, response_for};
use vstd::prelude::*;

verus! {

broadcast use vstd::seq_lib::group_seq_properties;

/// A response reports token counts exactly when the answer does, and then the same counts, however
/// the generation ended.
pub proof fn law_token_counts_are_kept(
    chat: ChatCompletionResponseView,
    request: ResponsesRequestView,
    id: Option<Seq<char>>,
)
    ensures
        chat.usage is None <==> response_for(chat, request, id).usage is None,
        chat.usage matches Some(usage) ==> {
            &&& response_for(chat, request, id).usage matches Some(ResponsesUsage::Classic(info))
            &&& info.prompt_tokens == usage.prompt_tokens
            &&& info.completion_tokens == usage.completion_tokens
            &&& info.total_tokens == usage.total_tokens
            &&& usage.completion_tokens_details is None ==> info.reasoning_tokens is None
            &&& usage.completion_tokens_details matches Some(details) ==> info.reasoning_tokens
                == details.reasoning_tokens
            &&& info.prompt_tokens_details is None
        },
{
}

/// A response names the model that answered, and goes by the id it is given or else by the
/// answer's.
pub proof fn law_responses_name_their_model(
    chat: ChatCompletionResponseView,
    request: ResponsesRequestView,
    id: Seq<char>,
)
    ensures
        response_for(chat, request, Some(id)).model == chat.model,
        response_for(chat, request, None).model == chat.model,
        response_for(chat, request, Some(id)).id == id,
        response_for(chat, request, None).id == chat.id,
{
}

/// The time of creation keeps its bits: it is the answer's, less `2^64` from `2^63` on.
pub proof fn law_creation_time_keeps_its_bits(
    chat: ChatCompletionResponseView,
    request: ResponsesRequestView,
    id: Option<Seq<char>>,
)
    ensures
        chat.created < 0x8000_0000_0000_0000 ==> response_for(chat, request, id).created_at
            == chat.created,
        chat.created >= 0x8000_0000_0000_0000 ==> response_for(chat, request, id).created_at
            == chat.created - 0x1_0000_0000_0000_0000,
{
}

/// The status tells how the first choice ended, whatever else the answer holds: it waits for tools
/// after tool calls, it has failed after a failure or an error, and else it is complete.
pub proof fn law_status_tells_how_the_first_choice_ended(
    chat: ChatCompletionResponseView,
    request: ResponsesRequestView,
    id: Option<Seq<char>>,
)
    requires
        chat.choices.len() > 0,
    ensures
        ({
            let reason = chat.choices[0].finish_reason;
            let status = response_for(chat, request, id).status;
            &&& status is InProgress <==> reason == Some("tool_calls"@)
            &&& status is Failed <==> (reason == Some("failed"@) || reason == Some("error"@))
            &&& status is Completed <==> (reason != Some("tool_calls"@) && reason != Some(
                "failed"@,
            ) && reason != Some("error"@))
        }),
{
    crate::laws::law_status_follows_the_finish_reason(chat.choices[0].finish_reason);
}

/// Whether there is any text.
pub open spec fn is_said(text: Option<Seq<char>>) -> bool {
    text is Some && text->0.len() > 0
}

/// How many items the text and the reasoning of a choice become.
pub open spec fn spoken_items(choice: ChatChoiceView) -> int {
    (if is_said(choice.message.content) {
        1int
    } else {
        0int
    }) + (if is_said(choice.message.reasoning_content) {
        1int
    } else {
        0int
    })
}

/// How many tools a choice calls.
pub open spec fn number_of_calls(choice: ChatChoiceView) -> int {
    if choice.message.tool_calls is Some {
        choice.message.tool_calls->0.len() as int
    } else {
        0
    }
}

/// The output has one item for the text if there is any, one for the reasoning if there is any,
/// and one for each tool call, and no other.
pub proof fn law_output_has_no_other_items(
    chat: ChatCompletionResponseView,
    request: ResponsesRequestView,
    id: Option<Seq<char>>,
)
    requires
        chat.choices.len() > 0,
    ensures
        response_for(chat, request, id).output.len() == spoken_items(chat.choices[0])
            + number_of_calls(chat.choices[0]),
{
}

/// The text of the first choice comes first, as a finished message of the assistant with nothing
/// but that text and its log probabilities.
pub proof fn law_text_is_answered(
    chat: ChatCompletionResponseView,
    request: ResponsesRequestView,
    id: Option<Seq<char>>,
)
    requires
        chat.choices.len() > 0,
        is_said(chat.choices[0].message.content),
    ensures
        response_for(chat, request, id).output.len() > 0,
        response_for(chat, request, id).output[0] == (ResponseOutputItemView::Message {
            id: "msg_"@ + chat.id,
            role: "assistant"@,
            content: seq![
                ResponseContentPartView::OutputText {
                    text: chat.choices[0].message.content->0,
                    annotations: seq![],
                    logprobs: chat.choices[0].logprobs,
                },
            ],
            status: "completed"@,
        }),
{
}

/// The reasoning of the first choice comes behind its text, as a finished item with that one step
/// and no summary.
pub proof fn law_reasoning_is_answered(
    chat: ChatCompletionResponseView,
    request: ResponsesRequestView,
    id: Option<Seq<char>>,
)
    requires
        chat.choices.len() > 0,
        is_said(chat.choices[0].message.reasoning_content),
    ensures
        ({
            let at = spoken_items(chat.choices[0]) - 1;
            &&& at < response_for(chat, request, id).output.len()
            &&& response_for(chat, request, id).output[at] == (ResponseOutputItemView::Reasoning {
                id: "reasoning_"@ + chat.id,
                summary: seq![],
                content: seq![
                    ResponseReasoningContentView::ReasoningText {
                        text: chat.choices[0].message.reasoning_content->0,
                    },
                ],
                status: Some("completed"@),
            })
        }),
{
}

/// The tool calls of the first choice come last, in their order: each under the id of the call,
/// with its name and its arguments, still to be carried out.
pub proof fn law_tool_calls_are_answered(
    chat: ChatCompletionResponseView,
    request: ResponsesRequestView,
    id: Option<Seq<char>>,
    i: int,
)
    requires
        chat.choices.len() > 0,
        0 <= i < number_of_calls(chat.choices[0]),
    ensures
        ({
            let call = chat.choices[0].message.tool_calls->0[i];
            let output = response_for(chat, request, id).output;
            &&& output[spoken_items(chat.choices[0]) + i]
                matches ResponseOutputItemView::FunctionToolCall {
                id: item_id,
                call_id,
                name,
                arguments,
                output: None,
                status,
            }
            &&& item_id == call.id
            &&& call_id == call.id
            &&& name == call.function.name
            &&& call.function.arguments is Some ==> arguments == call.function.arguments->0
            &&& call.function.arguments is None ==> arguments.len() == 0
            &&& status == "in_progress"@
        }),
{
    let choice = chat.choices[0];
    let calls = choice.message.tool_calls->0;
    let output = output_items(chat.id, choice);
    assert(output[spoken_items(choice) + i] == crate::response::call_item(calls[i]));
}

/// A response that has just begun goes by its id and its model, and has nothing else to say yet.
pub proof fn law_started_responses_are_empty(id: Seq<char>, model: Seq<char>)
    ensures
        ({
            let started = ResponsesResponseView::started(id, model);
            &&& started.id == id
            &&& started.model == model
            &&& started.created_at == 0
            &&& started.status is InProgress
            &&& started.output.len() == 0
            &&& started.instructions is None
            &&& started.max_output_tokens is None
            &&& started.parallel_tool_calls is None
            &&& started.previous_response_id is None
            &&& started.temperature is None
            &&& started.text is None
            &&& started.tool_choice is None
            &&& started.tools is None
            &&& started.top_p is None
            &&& started.usage is None
        }),
{
}

/// Taking over the settings of a request replaces all that the two share and leaves the rest.
pub proof fn law_settings_are_taken_over(
    response: ResponsesResponseView,
    request: ResponsesRequestView,
)
    ensures
        ({
            let with = response.with_settings_of(request);
            &&& with.instructions == request.instructions
            &&& with.max_output_tokens == request.max_output_tokens
            &&& with.parallel_tool_calls == request.parallel_tool_calls
            &&& with.previous_response_id == request.previous_response_id
            &&& with.temperature == request.temperature
            &&& with.tool_choice == request.tool_choice
            &&& with.tools == request.tools
            &&& with.top_p == request.top_p
            &&& with.id == response.id
            &&& with.model == response.model
            &&& with.created_at == response.created_at
            &&& with.status == response.status
            &&& with.output == response.output
            &&& with.text == response.text
            &&& with.usage == response.usage
        }),
{
}

} // verus!
