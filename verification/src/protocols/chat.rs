//! Requests to and answers of the Chat Completions API.

use crate::protocols::common::{
    ChatLogProbs, ChatLogProbsView, ContentPart, ContentPartView, ResponseFormat,
    ResponseFormatView, Single, StreamOptions, Tool, ToolCall, ToolCallView, ToolChoice,
    ToolChoiceView, ToolView, Usage,
};
use vstd::prelude::*;

verus! {

/// What a message says: plain text, or text and images in order.
#[derive(Debug, PartialEq, Eq)]
pub enum MessageContent {
    Text(String),
    Parts(Vec<ContentPart>),
}

/// Model of [`MessageContent`].
#[verifier::ext_equal]
pub enum MessageContentView {
    Text(Seq<char>),
    Parts(Seq<ContentPartView>),
}

impl DeepView for MessageContent {
    type V = MessageContentView;

    open spec fn deep_view(&self) -> MessageContentView {
        match self {
            MessageContent::Text(text) => MessageContentView::Text(text@),
            MessageContent::Parts(parts) => MessageContentView::Parts(parts.deep_view()),
        }
    }
}

/// One message of a conversation.
#[allow(inconsistent_fields)]
#[derive(Debug, PartialEq, Eq)]
pub enum ChatMessage {
    System { content: MessageContent, name: Option<String> },
    User { content: MessageContent, name: Option<String> },
    Assistant {
        content: Option<MessageContent>,
        name: Option<String>,
        tool_calls: Option<Vec<ToolCall>>,
        reasoning_content: Option<String>,
    },
    Tool { content: MessageContent, tool_call_id: String },
}

/// Model of [`ChatMessage`].
#[allow(inconsistent_fields)]
#[verifier::ext_equal]
pub enum ChatMessageView {
    System { content: MessageContentView, name: Option<Seq<char>> },
    User { content: MessageContentView, name: Option<Seq<char>> },
    Assistant {
        content: Option<MessageContentView>,
        name: Option<Seq<char>>,
        tool_calls: Option<Seq<ToolCallView>>,
        reasoning_content: Option<Seq<char>>,
    },
    Tool { content: MessageContentView, tool_call_id: Seq<char> },
}

impl DeepView for ChatMessage {
    type V = ChatMessageView;

    open spec fn deep_view(&self) -> ChatMessageView {
        match self {
            ChatMessage::System { content, name } => ChatMessageView::System {
                content: content.deep_view(),
                name: name.deep_view(),
            },
            ChatMessage::User { content, name } => ChatMessageView::User {
                content: content.deep_view(),
                name: name.deep_view(),
            },
            ChatMessage::Assistant { content, name, tool_calls, reasoning_content } => {
                ChatMessageView::Assistant {
                    content: content.deep_view(),
                    name: name.deep_view(),
                    tool_calls: tool_calls.deep_view(),
                    reasoning_content: reasoning_content.deep_view(),
                }
            },
            ChatMessage::Tool { content, tool_call_id } => ChatMessageView::Tool {
                content: content.deep_view(),
                tool_call_id: tool_call_id@,
            },
        }
    }
}

/// A request to continue a conversation.
#[derive(Debug, PartialEq, Eq)]
pub struct ChatCompletionRequest {
    pub messages: Vec<ChatMessage>,
    pub model: String,
    pub frequency_penalty: Option<Single>,
    pub logprobs: bool,
    pub max_completion_tokens: Option<u32>,
    pub max_tokens: Option<u32>,
    pub n: Option<u32>,
    pub parallel_tool_calls: Option<bool>,
    pub presence_penalty: Option<Single>,
    pub response_format: Option<ResponseFormat>,
    pub seed: Option<i64>,
    pub skip_special_tokens: bool,
    pub stop: Option<Vec<String>>,
    pub stream: bool,
    pub stream_options: Option<StreamOptions>,
    pub temperature: Option<Single>,
    pub tool_choice: Option<ToolChoice>,
    pub tools: Option<Vec<Tool>>,
    pub top_logprobs: Option<u32>,
    pub top_p: Option<Single>,
    pub user: Option<String>,
}

/// Model of [`ChatCompletionRequest`].
#[verifier::ext_equal]
pub struct ChatCompletionRequestView {
    pub messages: Seq<ChatMessageView>,
    pub model: Seq<char>,
    pub frequency_penalty: Option<Single>,
    pub logprobs: bool,
    pub max_completion_tokens: Option<u32>,
    pub max_tokens: Option<u32>,
    pub n: Option<u32>,
    pub parallel_tool_calls: Option<bool>,
    pub presence_penalty: Option<Single>,
    pub response_format: Option<ResponseFormatView>,
    pub seed: Option<i64>,
    pub skip_special_tokens: bool,
    pub stop: Option<Seq<Seq<char>>>,
    pub stream: bool,
    pub stream_options: Option<StreamOptions>,
    pub temperature: Option<Single>,
    pub tool_choice: Option<ToolChoiceView>,
    pub tools: Option<Seq<ToolView>>,
    pub top_logprobs: Option<u32>,
    pub top_p: Option<Single>,
    pub user: Option<Seq<char>>,
}

impl ChatCompletionRequestView {
    /// A request that says nothing and sets no option.
    pub open spec fn unset() -> ChatCompletionRequestView {
        ChatCompletionRequestView {
            messages: seq![],
            model: seq![],
            frequency_penalty: None,
            logprobs: false,
            max_completion_tokens: None,
            max_tokens: None,
            n: None,
            parallel_tool_calls: None,
            presence_penalty: None,
            response_format: None,
            seed: None,
            skip_special_tokens: false,
            stop: None,
            stream: false,
            stream_options: None,
            temperature: None,
            tool_choice: None,
            tools: None,
            top_logprobs: None,
            top_p: None,
            user: None,
        }
    }
}

impl DeepView for ChatCompletionRequest {
    type V = ChatCompletionRequestView;

    open spec fn deep_view(&self) -> ChatCompletionRequestView {
        ChatCompletionRequestView {
            messages: self.messages.deep_view(),
            model: self.model@,
            frequency_penalty: self.frequency_penalty,
            logprobs: self.logprobs,
            max_completion_tokens: self.max_completion_tokens,
            max_tokens: self.max_tokens,
            n: self.n,
            parallel_tool_calls: self.parallel_tool_calls,
            presence_penalty: self.presence_penalty,
            response_format: self.response_format.deep_view(),
            seed: self.seed,
            skip_special_tokens: self.skip_special_tokens,
            stop: self.stop.deep_view(),
            stream: self.stream,
            stream_options: self.stream_options,
            temperature: self.temperature,
            tool_choice: self.tool_choice.deep_view(),
            tools: self.tools.deep_view(),
            top_logprobs: self.top_logprobs,
            top_p: self.top_p,
            user: self.user.deep_view(),
        }
    }
}

impl Default for ChatCompletionRequest {
    fn default() -> (result: Self)
        ensures
            result.deep_view() == ChatCompletionRequestView::unset(),
    {
        ChatCompletionRequest {
            messages: Vec::new(),
            model: String::new(),
            frequency_penalty: None,
            logprobs: false,
            max_completion_tokens: None,
            max_tokens: None,
            n: None,
            parallel_tool_calls: None,
            presence_penalty: None,
            response_format: None,
            seed: None,
            skip_special_tokens: false,
            stop: None,
            stream: false,
            stream_options: None,
            temperature: None,
            tool_choice: None,
            tools: None,
            top_logprobs: None,
            top_p: None,
            user: None,
        }
    }
}

/// What the model answered in one choice.
#[derive(Debug, PartialEq, Eq)]
pub struct ChatCompletionMessage {
    pub role: String,
    pub content: Option<String>,
    pub tool_calls: Option<Vec<ToolCall>>,
    pub reasoning_content: Option<String>,
}

/// Model of [`ChatCompletionMessage`].
#[verifier::ext_equal]
pub struct ChatCompletionMessageView {
    pub role: Seq<char>,
    pub content: Option<Seq<char>>,
    pub tool_calls: Option<Seq<ToolCallView>>,
    pub reasoning_content: Option<Seq<char>>,
}

impl DeepView for ChatCompletionMessage {
    type V = ChatCompletionMessageView;

    open spec fn deep_view(&self) -> ChatCompletionMessageView {
        ChatCompletionMessageView {
            role: self.role@,
            content: self.content.deep_view(),
            tool_calls: self.tool_calls.deep_view(),
            reasoning_content: self.reasoning_content.deep_view(),
        }
    }
}

/// One of the answers that the model was asked for.
#[derive(Debug, PartialEq, Eq)]
pub struct ChatChoice {
    pub index: u32,
    pub message: ChatCompletionMessage,
    pub logprobs: Option<ChatLogProbs>,
    pub finish_reason: Option<String>,
}

/// Model of [`ChatChoice`].
#[verifier::ext_equal]
pub struct ChatChoiceView {
    pub index: u32,
    pub message: ChatCompletionMessageView,
    pub logprobs: Option<ChatLogProbsView>,
    pub finish_reason: Option<Seq<char>>,
}

impl DeepView for ChatChoice {
    type V = ChatChoiceView;

    open spec fn deep_view(&self) -> ChatChoiceView {
        ChatChoiceView {
            index: self.index,
            message: self.message.deep_view(),
            logprobs: self.logprobs.deep_view(),
            finish_reason: self.finish_reason.deep_view(),
        }
    }
}

/// The answer to a chat request.
#[derive(Debug, PartialEq, Eq)]
pub struct ChatCompletionResponse {
    pub id: String,
    pub created: u64,
    pub model: String,
    pub choices: Vec<ChatChoice>,
    pub usage: Option<Usage>,
}

/// Model of [`ChatCompletionResponse`].
#[verifier::ext_equal]
pub struct ChatCompletionResponseView {
    pub id: Seq<char>,
    pub created: u64,
    pub model: Seq<char>,
    pub choices: Seq<ChatChoiceView>,
    pub usage: Option<Usage>,
}

impl DeepView for ChatCompletionResponse {
    type V = ChatCompletionResponseView;

    open spec fn deep_view(&self) -> ChatCompletionResponseView {
        ChatCompletionResponseView {
            id: self.id@,
            created: self.created,
            model: self.model@,
            choices: self.choices.deep_view(),
            usage: self.usage,
        }
    }
}

} // verus!
