//! Requests to and answers of the Responses API.

use crate::protocols::common::{
    ChatLogProbs, ChatLogProbsView, FunctionDefinition, FunctionDefinitionView, Json, Single,
    ToolChoice, ToolChoiceView, UsageInfo,
};
use vstd::prelude::*;

verus! {

/// Where an input image is: a bare URL, or a URL with a detail level of its own.
#[derive(Debug, PartialEq, Eq)]
pub enum ResponseImageUrlValue {
    Url(String),
    Object { url: String, detail: Option<String> },
}

/// Model of [`ResponseImageUrlValue`].
#[verifier::ext_equal]
pub enum ResponseImageUrlValueView {
    Url(Seq<char>),
    Object { url: Seq<char>, detail: Option<Seq<char>> },
}

impl ResponseImageUrlValueView {
    pub open spec fn url(self) -> Seq<char> {
        match self {
            ResponseImageUrlValueView::Url(url) => url,
            ResponseImageUrlValueView::Object { url, .. } => url,
        }
    }

    pub open spec fn detail(self) -> Option<Seq<char>> {
        match self {
            ResponseImageUrlValueView::Url(_) => None,
            ResponseImageUrlValueView::Object { detail, .. } => detail,
        }
    }
}

impl DeepView for ResponseImageUrlValue {
    type V = ResponseImageUrlValueView;

    open spec fn deep_view(&self) -> ResponseImageUrlValueView {
        match self {
            ResponseImageUrlValue::Url(url) => ResponseImageUrlValueView::Url(url@),
            ResponseImageUrlValue::Object { url, detail } => ResponseImageUrlValueView::Object {
                url: url@,
                detail: detail.deep_view(),
            },
        }
    }
}

impl ResponseImageUrlValue {
    /// The URL, in whichever form it was given.
    pub fn url(&self) -> (result: &str)
        ensures
            result@ == self.deep_view().url(),
    {
        match self {
            ResponseImageUrlValue::Url(url) => url.as_str(),
            ResponseImageUrlValue::Object { url, .. } => url.as_str(),
        }
    }

    /// The detail level that came with the URL, if any did.
    pub fn detail(&self) -> (result: Option<&str>)
        ensures
            result.deep_view() == self.deep_view().detail(),
    {
        match self {
            ResponseImageUrlValue::Url(_) => None,
            ResponseImageUrlValue::Object { detail, .. } => match detail {
                Some(detail) => Some(detail.as_str()),
                None => None,
            },
        }
    }
}

/// One part of a message's content.
#[derive(Debug, PartialEq, Eq)]
pub enum ResponseContentPart {
    InputText { text: String },
    OutputText { text: String, annotations: Vec<String>, logprobs: Option<ChatLogProbs> },
    InputImage { image_url: ResponseImageUrlValue, detail: Option<String> },
    /// A part of a kind that this library does not know.
    Unknown,
}

/// Model of [`ResponseContentPart`].
#[verifier::ext_equal]
pub enum ResponseContentPartView {
    InputText { text: Seq<char> },
    OutputText {
        text: Seq<char>,
        annotations: Seq<Seq<char>>,
        logprobs: Option<ChatLogProbsView>,
    },
    InputImage { image_url: ResponseImageUrlValueView, detail: Option<Seq<char>> },
    Unknown,
}

impl DeepView for ResponseContentPart {
    type V = ResponseContentPartView;

    open spec fn deep_view(&self) -> ResponseContentPartView {
        match self {
            ResponseContentPart::InputText { text } => ResponseContentPartView::InputText {
                text: text@,
            },
            ResponseContentPart::OutputText { text, annotations, logprobs } => {
                ResponseContentPartView::OutputText {
                    text: text@,
                    annotations: annotations.deep_view(),
                    logprobs: logprobs.deep_view(),
                }
            },
            ResponseContentPart::InputImage { image_url, detail } => {
                ResponseContentPartView::InputImage {
                    image_url: image_url.deep_view(),
                    detail: detail.deep_view(),
                }
            },
            ResponseContentPart::Unknown => ResponseContentPartView::Unknown,
        }
    }
}

/// The content of a message in the short form.
#[derive(Debug, PartialEq, Eq)]
pub enum StringOrContentParts {
    String(String),
    Array(Vec<ResponseContentPart>),
}

/// Model of [`StringOrContentParts`].
#[verifier::ext_equal]
pub enum StringOrContentPartsView {
    String(Seq<char>),
    Array(Seq<ResponseContentPartView>),
}

impl DeepView for StringOrContentParts {
    type V = StringOrContentPartsView;

    open spec fn deep_view(&self) -> StringOrContentPartsView {
        match self {
            StringOrContentParts::String(text) => StringOrContentPartsView::String(text@),
            StringOrContentParts::Array(parts) => StringOrContentPartsView::Array(
                parts.deep_view(),
            ),
        }
    }
}

/// One step of a model's reasoning.
#[derive(Debug, PartialEq, Eq)]
pub enum ResponseReasoningContent {
    ReasoningText { text: String },
}

/// Model of [`ResponseReasoningContent`].
#[verifier::ext_equal]
pub enum ResponseReasoningContentView {
    ReasoningText { text: Seq<char> },
}

impl DeepView for ResponseReasoningContent {
    type V = ResponseReasoningContentView;

    open spec fn deep_view(&self) -> ResponseReasoningContentView {
        match self {
            ResponseReasoningContent::ReasoningText { text } => {
                ResponseReasoningContentView::ReasoningText { text: text@ }
            },
        }
    }
}

/// What a tool gave back.
#[derive(Debug, PartialEq, Eq)]
pub enum FunctionCallOutputContent {
    Text(String),
    Parts(Vec<ResponseContentPart>),
}

/// Model of [`FunctionCallOutputContent`].
#[verifier::ext_equal]
pub enum FunctionCallOutputContentView {
    Text(Seq<char>),
    Parts(Seq<ResponseContentPartView>),
}

impl DeepView for FunctionCallOutputContent {
    type V = FunctionCallOutputContentView;

    open spec fn deep_view(&self) -> FunctionCallOutputContentView {
        match self {
            FunctionCallOutputContent::Text(text) => FunctionCallOutputContentView::Text(text@),
            FunctionCallOutputContent::Parts(parts) => FunctionCallOutputContentView::Parts(
                parts.deep_view(),
            ),
        }
    }
}

/// One item of a structured input: a new message, or something an earlier turn produced.
#[allow(inconsistent_fields)]
#[derive(Debug, PartialEq, Eq)]
pub enum ResponseInputOutputItem {
    SimpleInputMessage {
        content: StringOrContentParts,
        role: String,
        message_type: Option<String>,
    },
    Message {
        id: String,
        role: String,
        content: Vec<ResponseContentPart>,
        status: Option<String>,
    },
    FunctionToolCall {
        id: Option<String>,
        call_id: String,
        name: String,
        arguments: String,
        output: Option<String>,
        status: Option<String>,
    },
    Reasoning {
        id: String,
        summary: Vec<String>,
        content: Vec<ResponseReasoningContent>,
        status: Option<String>,
    },
    FunctionCallOutput {
        id: Option<String>,
        call_id: String,
        output: FunctionCallOutputContent,
        status: Option<String>,
    },
}

/// Model of [`ResponseInputOutputItem`].
#[allow(inconsistent_fields)]
#[verifier::ext_equal]
pub enum ResponseInputOutputItemView {
    SimpleInputMessage {
        content: StringOrContentPartsView,
        role: Seq<char>,
        message_type: Option<Seq<char>>,
    },
    Message {
        id: Seq<char>,
        role: Seq<char>,
        content: Seq<ResponseContentPartView>,
        status: Option<Seq<char>>,
    },
    FunctionToolCall {
        id: Option<Seq<char>>,
        call_id: Seq<char>,
        name: Seq<char>,
        arguments: Seq<char>,
        output: Option<Seq<char>>,
        status: Option<Seq<char>>,
    },
    Reasoning {
        id: Seq<char>,
        summary: Seq<Seq<char>>,
        content: Seq<ResponseReasoningContentView>,
        status: Option<Seq<char>>,
    },
    FunctionCallOutput {
        id: Option<Seq<char>>,
        call_id: Seq<char>,
        output: FunctionCallOutputContentView,
        status: Option<Seq<char>>,
    },
}

impl DeepView for ResponseInputOutputItem {
    type V = ResponseInputOutputItemView;

    open spec fn deep_view(&self) -> ResponseInputOutputItemView {
        match self {
            ResponseInputOutputItem::SimpleInputMessage { content, role, message_type } => {
                ResponseInputOutputItemView::SimpleInputMessage {
                    content: content.deep_view(),
                    role: role@,
                    message_type: message_type.deep_view(),
                }
            },
            ResponseInputOutputItem::Message { id, role, content, status } => {
                ResponseInputOutputItemView::Message {
                    id: id@,
                    role: role@,
                    content: content.deep_view(),
                    status: status.deep_view(),
                }
            },
            ResponseInputOutputItem::FunctionToolCall {
                id,
                call_id,
                name,
                arguments,
                output,
                status,
            } => ResponseInputOutputItemView::FunctionToolCall {
                id: id.deep_view(),
                call_id: call_id@,
                name: name@,
                arguments: arguments@,
                output: output.deep_view(),
                status: status.deep_view(),
            },
            ResponseInputOutputItem::Reasoning { id, summary, content, status } => {
                ResponseInputOutputItemView::Reasoning {
                    id: id@,
                    summary: summary.deep_view(),
                    content: content.deep_view(),
                    status: status.deep_view(),
                }
            },
            ResponseInputOutputItem::FunctionCallOutput { id, call_id, output, status } => {
                ResponseInputOutputItemView::FunctionCallOutput {
                    id: id.deep_view(),
                    call_id: call_id@,
                    output: output.deep_view(),
                    status: status.deep_view(),
                }
            },
        }
    }
}

/// The input of a request.
#[derive(Debug, PartialEq, Eq)]
pub enum ResponseInput {
    Text(String),
    Items(Vec<ResponseInputOutputItem>),
}

/// Model of [`ResponseInput`].
#[verifier::ext_equal]
pub enum ResponseInputView {
    Text(Seq<char>),
    Items(Seq<ResponseInputOutputItemView>),
}

impl DeepView for ResponseInput {
    type V = ResponseInputView;

    open spec fn deep_view(&self) -> ResponseInputView {
        match self {
            ResponseInput::Text(text) => ResponseInputView::Text(text@),
            ResponseInput::Items(items) => ResponseInputView::Items(items.deep_view()),
        }
    }
}

/// The shape in which a request wants its answer.
#[derive(Debug, PartialEq, Eq)]
pub enum TextFormat {
    Text,
    JsonObject,
    JsonSchema { name: String, schema: Json, description: Option<String>, strict: Option<bool> },
}

/// Model of [`TextFormat`].
#[verifier::ext_equal]
pub enum TextFormatView {
    Text,
    JsonObject,
    JsonSchema {
        name: Seq<char>,
        schema: Seq<char>,
        description: Option<Seq<char>>,
        strict: Option<bool>,
    },
}

impl DeepView for TextFormat {
    type V = TextFormatView;

    open spec fn deep_view(&self) -> TextFormatView {
        match self {
            TextFormat::Text => TextFormatView::Text,
            TextFormat::JsonObject => TextFormatView::JsonObject,
            TextFormat::JsonSchema { name, schema, description, strict } => {
                TextFormatView::JsonSchema {
                    name: name@,
                    schema: schema.deep_view(),
                    description: description.deep_view(),
                    strict: *strict,
                }
            },
        }
    }
}

impl Clone for TextFormat {
    fn clone(&self) -> (result: Self)
        ensures
            result.deep_view() == self.deep_view(),
    {
        match self {
            TextFormat::Text => TextFormat::Text,
            TextFormat::JsonObject => TextFormat::JsonObject,
            TextFormat::JsonSchema { name, schema, description, strict } => {
                TextFormat::JsonSchema {
                    name: name.clone(),
                    schema: schema.clone(),
                    description: description.clone(),
                    strict: *strict,
                }
            },
        }
    }
}

/// How a request wants its text answered.
#[derive(Debug, PartialEq, Eq)]
pub struct TextConfig {
    pub format: Option<TextFormat>,
}

/// Model of [`TextConfig`].
#[verifier::ext_equal]
pub struct TextConfigView {
    pub format: Option<TextFormatView>,
}

impl DeepView for TextConfig {
    type V = TextConfigView;

    open spec fn deep_view(&self) -> TextConfigView {
        TextConfigView { format: self.format.deep_view() }
    }
}

impl Clone for TextConfig {
    fn clone(&self) -> (result: Self)
        ensures
            result.deep_view() == self.deep_view(),
    {
        TextConfig { format: self.format.clone() }
    }
}

/// The kinds of tools that a request can offer.
#[derive(Clone, Copy, Debug, PartialEq, Eq, Structural)]
pub enum ResponseToolType {
    Function,
    WebSearchPreview,
    CodeInterpreter,
    Mcp,
}

/// A tool that a request offers to the model.
#[derive(Debug, PartialEq, Eq)]
pub struct ResponseTool {
    pub tool_type: ResponseToolType,
    pub function: Option<FunctionDefinition>,
    pub server_url: Option<String>,
    pub server_label: Option<String>,
}

/// Model of [`ResponseTool`].
#[verifier::ext_equal]
pub struct ResponseToolView {
    pub tool_type: ResponseToolType,
    pub function: Option<FunctionDefinitionView>,
    pub server_url: Option<Seq<char>>,
    pub server_label: Option<Seq<char>>,
}

impl DeepView for ResponseTool {
    type V = ResponseToolView;

    open spec fn deep_view(&self) -> ResponseToolView {
        ResponseToolView {
            tool_type: self.tool_type,
            function: self.function.deep_view(),
            server_url: self.server_url.deep_view(),
            server_label: self.server_label.deep_view(),
        }
    }
}

impl Clone for ResponseTool {
    fn clone(&self) -> (result: Self)
        ensures
            result.deep_view() == self.deep_view(),
    {
        ResponseTool {
            tool_type: self.tool_type,
            function: self.function.clone(),
            server_url: self.server_url.clone(),
            server_label: self.server_label.clone(),
        }
    }
}

/// A request to the Responses API.
#[derive(Debug, PartialEq, Eq)]
pub struct ResponsesRequest {
    pub input: ResponseInput,
    pub model: String,
    pub conversation: Option<String>,
    pub instructions: Option<String>,
    pub max_output_tokens: Option<u32>,
    pub parallel_tool_calls: Option<bool>,
    pub previous_response_id: Option<String>,
    pub stream: Option<bool>,
    pub temperature: Option<Single>,
    pub text: Option<TextConfig>,
    pub tool_choice: Option<ToolChoice>,
    pub tools: Option<Vec<ResponseTool>>,
    pub top_logprobs: Option<u32>,
    pub top_p: Option<Single>,
}

/// Model of [`ResponsesRequest`].
#[verifier::ext_equal]
pub struct ResponsesRequestView {
    pub input: ResponseInputView,
    pub model: Seq<char>,
    pub conversation: Option<Seq<char>>,
    pub instructions: Option<Seq<char>>,
    pub max_output_tokens: Option<u32>,
    pub parallel_tool_calls: Option<bool>,
    pub previous_response_id: Option<Seq<char>>,
    pub stream: Option<bool>,
    pub temperature: Option<Single>,
    pub text: Option<TextConfigView>,
    pub tool_choice: Option<ToolChoiceView>,
    pub tools: Option<Seq<ResponseToolView>>,
    pub top_logprobs: Option<u32>,
    pub top_p: Option<Single>,
}

impl ResponsesRequestView {
    /// A request with an empty text and no option set.
    pub open spec fn unset() -> ResponsesRequestView {
        ResponsesRequestView {
            input: ResponseInputView::Text(seq![]),
            model: seq![],
            conversation: None,
            instructions: None,
            max_output_tokens: None,
            parallel_tool_calls: None,
            previous_response_id: None,
            stream: None,
            temperature: None,
            text: None,
            tool_choice: None,
            tools: None,
            top_logprobs: None,
            top_p: None,
        }
    }
}

impl DeepView for ResponsesRequest {
    type V = ResponsesRequestView;

    open spec fn deep_view(&self) -> ResponsesRequestView {
        ResponsesRequestView {
            input: self.input.deep_view(),
            model: self.model@,
            conversation: self.conversation.deep_view(),
            instructions: self.instructions.deep_view(),
            max_output_tokens: self.max_output_tokens,
            parallel_tool_calls: self.parallel_tool_calls,
            previous_response_id: self.previous_response_id.deep_view(),
            stream: self.stream,
            temperature: self.temperature,
            text: self.text.deep_view(),
            tool_choice: self.tool_choice.deep_view(),
            tools: self.tools.deep_view(),
            top_logprobs: self.top_logprobs,
            top_p: self.top_p,
        }
    }
}

impl Default for ResponsesRequest {
    fn default() -> (result: Self)
        ensures
            result.deep_view() == ResponsesRequestView::unset(),
    {
        ResponsesRequest {
            input: ResponseInput::Text(String::new()),
            model: String::new(),
            conversation: None,
            instructions: None,
            max_output_tokens: None,
            parallel_tool_calls: None,
            previous_response_id: None,
            stream: None,
            temperature: None,
            text: None,
            tool_choice: None,
            tools: None,
            top_logprobs: None,
            top_p: None,
        }
    }
}

/// How far a response has come.
#[derive(Clone, Copy, Debug, PartialEq, Eq, Structural)]
pub enum ResponseStatus {
    InProgress,
    Completed,
    Failed,
}

/// One item of a response's output.
#[allow(inconsistent_fields)]
#[derive(Debug, PartialEq, Eq)]
pub enum ResponseOutputItem {
    Message { id: String, role: String, content: Vec<ResponseContentPart>, status: String },
    Reasoning {
        id: String,
        summary: Vec<String>,
        content: Vec<ResponseReasoningContent>,
        status: Option<String>,
    },
    FunctionToolCall {
        id: String,
        call_id: String,
        name: String,
        arguments: String,
        output: Option<String>,
        status: String,
    },
}

/// Model of [`ResponseOutputItem`].
#[allow(inconsistent_fields)]
#[verifier::ext_equal]
pub enum ResponseOutputItemView {
    Message {
        id: Seq<char>,
        role: Seq<char>,
        content: Seq<ResponseContentPartView>,
        status: Seq<char>,
    },
    Reasoning {
        id: Seq<char>,
        summary: Seq<Seq<char>>,
        content: Seq<ResponseReasoningContentView>,
        status: Option<Seq<char>>,
    },
    FunctionToolCall {
        id: Seq<char>,
        call_id: Seq<char>,
        name: Seq<char>,
        arguments: Seq<char>,
        output: Option<Seq<char>>,
        status: Seq<char>,
    },
}

impl DeepView for ResponseOutputItem {
    type V = ResponseOutputItemView;

    open spec fn deep_view(&self) -> ResponseOutputItemView {
        match self {
            ResponseOutputItem::Message { id, role, content, status } => {
                ResponseOutputItemView::Message {
                    id: id@,
                    role: role@,
                    content: content.deep_view(),
                    status: status@,
                }
            },
            ResponseOutputItem::Reasoning { id, summary, content, status } => {
                ResponseOutputItemView::Reasoning {
                    id: id@,
                    summary: summary.deep_view(),
                    content: content.deep_view(),
                    status: status.deep_view(),
                }
            },
            ResponseOutputItem::FunctionToolCall {
                id,
                call_id,
                name,
                arguments,
                output,
                status,
            } => ResponseOutputItemView::FunctionToolCall {
                id: id@,
                call_id: call_id@,
                name: name@,
                arguments: arguments@,
                output: output.deep_view(),
                status: status@,
            },
        }
    }
}

/// The token counts of a response.
#[derive(Clone, Copy, Debug, PartialEq, Eq, Structural)]
pub enum ResponsesUsage {
    Classic(UsageInfo),
}

/// An answer of the Responses API.
#[derive(Debug, PartialEq, Eq)]
pub struct ResponsesResponse {
    pub id: String,
    pub model: String,
    pub created_at: i64,
    pub status: ResponseStatus,
    pub output: Vec<ResponseOutputItem>,
    pub instructions: Option<String>,
    pub max_output_tokens: Option<u32>,
    pub parallel_tool_calls: Option<bool>,
    pub previous_response_id: Option<String>,
    pub temperature: Option<Single>,
    pub text: Option<TextConfig>,
    pub tool_choice: Option<ToolChoice>,
    pub tools: Option<Vec<ResponseTool>>,
    pub top_p: Option<Single>,
    pub usage: Option<ResponsesUsage>,
}

/// Model of [`ResponsesResponse`].
#[verifier::ext_equal]
pub struct ResponsesResponseView {
    pub id: Seq<char>,
    pub model: Seq<char>,
    pub created_at: i64,
    pub status: ResponseStatus,
    pub output: Seq<ResponseOutputItemView>,
    pub instructions: Option<Seq<char>>,
    pub max_output_tokens: Option<u32>,
    pub parallel_tool_calls: Option<bool>,
    pub previous_response_id: Option<Seq<char>>,
    pub temperature: Option<Single>,
    pub text: Option<TextConfigView>,
    pub tool_choice: Option<ToolChoiceView>,
    pub tools: Option<Seq<ResponseToolView>>,
    pub top_p: Option<Single>,
    pub usage: Option<ResponsesUsage>,
}

impl DeepView for ResponsesResponse {
    type V = ResponsesResponseView;

    open spec fn deep_view(&self) -> ResponsesResponseView {
        ResponsesResponseView {
            id: self.id@,
            model: self.model@,
            created_at: self.created_at,
            status: self.status,
            output: self.output.deep_view(),
            instructions: self.instructions.deep_view(),
            max_output_tokens: self.max_output_tokens,
            parallel_tool_calls: self.parallel_tool_calls,
            previous_response_id: self.previous_response_id.deep_view(),
            temperature: self.temperature,
            text: self.text.deep_view(),
            tool_choice: self.tool_choice.deep_view(),
            tools: self.tools.deep_view(),
            top_p: self.top_p,
            usage: self.usage,
        }
    }
}

impl ResponsesResponseView {
    /// A response that has just begun: no output yet, and nothing taken from a request.
    pub open spec fn started(id: Seq<char>, model: Seq<char>) -> ResponsesResponseView {
        ResponsesResponseView {
            id,
            model,
            created_at: 0,
            status: ResponseStatus::InProgress,
            output: seq![],
            instructions: None,
            max_output_tokens: None,
            parallel_tool_calls: None,
            previous_response_id: None,
            temperature: None,
            text: None,
            tool_choice: None,
            tools: None,
            top_p: None,
            usage: None,
        }
    }

    /// This response with the settings that it shares with a request taken from `request`.
    pub open spec fn with_settings_of(
        self,
        request: ResponsesRequestView,
    ) -> ResponsesResponseView {
        ResponsesResponseView {
            instructions: request.instructions,
            max_output_tokens: request.max_output_tokens,
            parallel_tool_calls: request.parallel_tool_calls,
            previous_response_id: request.previous_response_id,
            temperature: request.temperature,
            tool_choice: request.tool_choice,
            tools: request.tools,
            top_p: request.top_p,
            ..self
        }
    }
}

impl ResponsesResponse {
    /// Starts to build a response.
    pub fn builder(id: &str, model: &str) -> (result: ResponsesResponseBuilder)
        ensures
            result.deep_view() == ResponsesResponseView::started(id@, model@),
    {
        ResponsesResponseBuilder {
            response: ResponsesResponse {
                id: id.to_string(),
                model: model.to_string(),
                created_at: 0,
                status: ResponseStatus::InProgress,
                output: Vec::new(),
                instructions: None,
                max_output_tokens: None,
                parallel_tool_calls: None,
                previous_response_id: None,
                temperature: None,
                text: None,
                tool_choice: None,
                tools: None,
                top_p: None,
                usage: None,
            },
        }
    }
}

/// A response under construction.
#[derive(Debug, PartialEq, Eq)]
pub struct ResponsesResponseBuilder {
    response: ResponsesResponse,
}

impl DeepView for ResponsesResponseBuilder {
    type V = ResponsesResponseView;

    closed spec fn deep_view(&self) -> ResponsesResponseView {
        self.response.deep_view()
    }
}

impl ResponsesResponseBuilder {
    /// Takes over the settings that a response repeats from the request it answers.
    pub fn copy_from_request(self, request: &ResponsesRequest) -> (result: Self)
        ensures
            result.deep_view() == self.deep_view().with_settings_of(request.deep_view()),
    {
        let mut response = self.response;
        response.instructions = request.instructions.clone();
        response.max_output_tokens = request.max_output_tokens;
        response.parallel_tool_calls = request.parallel_tool_calls;
        response.previous_response_id = request.previous_response_id.clone();
        response.temperature = request.temperature;
        response.tool_choice = request.tool_choice.clone();
        response.tools = request.tools.clone();
        response.top_p = request.top_p;
        ResponsesResponseBuilder { response }
    }

    /// Sets the time at which the response was created, in seconds.
    pub fn created_at(self, created_at: i64) -> (result: Self)
        ensures
            result.deep_view() == (ResponsesResponseView { created_at, ..self.deep_view() }),
    {
        let mut response = self.response;
        response.created_at = created_at;
        ResponsesResponseBuilder { response }
    }

    /// Sets how far the response has come.
    pub fn status(self, status: ResponseStatus) -> (result: Self)
        ensures
            result.deep_view() == (ResponsesResponseView { status, ..self.deep_view() }),
    {
        let mut response = self.response;
        response.status = status;
        ResponsesResponseBuilder { response }
    }

    /// Sets the output items.
    pub fn output(self, output: Vec<ResponseOutputItem>) -> (result: Self)
        ensures
            result.deep_view() == (ResponsesResponseView {
                output: output.deep_view(),
                ..self.deep_view()
            }),
    {
        let mut response = self.response;
        response.output = output;
        ResponsesResponseBuilder { response }
    }

    /// Sets the text configuration if there is one, and keeps what was set before if not.
    pub fn maybe_text(self, text: Option<TextConfig>) -> (result: Self)
        ensures
            result.deep_view() == (if text is Some {
                ResponsesResponseView { text: text.deep_view(), ..self.deep_view() }
            } else {
                self.deep_view()
            }),
    {
        let mut response = self.response;
        if text.is_some() {
            response.text = text;
        }
        ResponsesResponseBuilder { response }
    }

    /// Sets the token counts if there are any, and keeps what was set before if not.
    pub fn maybe_usage(self, usage: Option<ResponsesUsage>) -> (result: Self)
        ensures
            result.deep_view() == (if usage is Some {
                ResponsesResponseView { usage, ..self.deep_view() }
            } else {
                self.deep_view()
            }),
    {
        let mut response = self.response;
        if usage.is_some() {
            response.usage = usage;
        }
        ResponsesResponseBuilder { response }
    }

    /// The finished response.
    pub fn build(self) -> (result: ResponsesResponse)
        ensures
            result.deep_view() == self.deep_view(),
    {
        self.response
    }
}

} // verus!
