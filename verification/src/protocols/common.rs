//! Types that both APIs share.

use vstd::prelude::*;

verus! {

/// A single-precision number, held by its bit pattern.
///
/// The conversions hand such numbers on and never compute with them.
#[derive(Clone, Copy, Debug, PartialEq, Eq, Structural)]
pub struct Single {
    pub bits: u32,
}

impl DeepView for Single {
    type V = Single;

    open spec fn deep_view(&self) -> Single {
        *self
    }
}

/// A JSON document, held by its text.
#[derive(Debug, PartialEq, Eq)]
pub struct Json {
    pub text: String,
}

impl DeepView for Json {
    type V = Seq<char>;

    open spec fn deep_view(&self) -> Seq<char> {
        self.text@
    }
}

impl Clone for Json {
    fn clone(&self) -> (result: Self)
        ensures
            result.deep_view() == self.deep_view(),
    {
        Json { text: self.text.clone() }
    }
}

/// The log probability of one generated token.
#[derive(Debug, PartialEq, Eq)]
pub struct TokenLogProb {
    pub token: String,
    pub logprob: Single,
}

/// Model of [`TokenLogProb`].
#[verifier::ext_equal]
pub struct TokenLogProbView {
    pub token: Seq<char>,
    pub logprob: Single,
}

impl DeepView for TokenLogProb {
    type V = TokenLogProbView;

    open spec fn deep_view(&self) -> TokenLogProbView {
        TokenLogProbView { token: self.token@, logprob: self.logprob }
    }
}

impl Clone for TokenLogProb {
    fn clone(&self) -> (result: Self)
        ensures
            result.deep_view() == self.deep_view(),
    {
        TokenLogProb { token: self.token.clone(), logprob: self.logprob }
    }
}

/// The log probabilities of the tokens of one choice.
#[derive(Debug, PartialEq, Eq)]
pub struct ChatLogProbs {
    pub content: Option<Vec<TokenLogProb>>,
}

/// Model of [`ChatLogProbs`].
#[verifier::ext_equal]
pub struct ChatLogProbsView {
    pub content: Option<Seq<TokenLogProbView>>,
}

impl DeepView for ChatLogProbs {
    type V = ChatLogProbsView;

    open spec fn deep_view(&self) -> ChatLogProbsView {
        ChatLogProbsView { content: self.content.deep_view() }
    }
}

impl Clone for ChatLogProbs {
    fn clone(&self) -> (result: Self)
        ensures
            result.deep_view() == self.deep_view(),
    {
        ChatLogProbs { content: self.content.clone() }
    }
}

/// Where the pixels of an image are, and how closely the model should look.
#[derive(Debug, PartialEq, Eq)]
pub struct ImageUrl {
    pub url: String,
    pub detail: Option<String>,
}

/// Model of [`ImageUrl`].
#[verifier::ext_equal]
pub struct ImageUrlView {
    pub url: Seq<char>,
    pub detail: Option<Seq<char>>,
}

impl DeepView for ImageUrl {
    type V = ImageUrlView;

    open spec fn deep_view(&self) -> ImageUrlView {
        ImageUrlView { url: self.url@, detail: self.detail.deep_view() }
    }
}

/// One part of a chat message whose content is more than plain text.
#[derive(Debug, PartialEq, Eq)]
pub enum ContentPart {
    Text { text: String },
    ImageUrl { image_url: ImageUrl },
}

/// Model of [`ContentPart`].
#[verifier::ext_equal]
pub enum ContentPartView {
    Text { text: Seq<char> },
    ImageUrl { image_url: ImageUrlView },
}

impl DeepView for ContentPart {
    type V = ContentPartView;

    open spec fn deep_view(&self) -> ContentPartView {
        match self {
            ContentPart::Text { text } => ContentPartView::Text { text: text@ },
            ContentPart::ImageUrl { image_url } => ContentPartView::ImageUrl {
                image_url: image_url.deep_view(),
            },
        }
    }
}

/// The function that a tool call names, with the arguments as JSON text.
#[derive(Debug, PartialEq, Eq)]
pub struct FunctionCallResponse {
    pub name: String,
    pub arguments: Option<String>,
}

/// Model of [`FunctionCallResponse`].
#[verifier::ext_equal]
pub struct FunctionCallResponseView {
    pub name: Seq<char>,
    pub arguments: Option<Seq<char>>,
}

impl DeepView for FunctionCallResponse {
    type V = FunctionCallResponseView;

    open spec fn deep_view(&self) -> FunctionCallResponseView {
        FunctionCallResponseView { name: self.name@, arguments: self.arguments.deep_view() }
    }
}

/// A model's decision to call a tool.
#[derive(Debug, PartialEq, Eq)]
pub struct ToolCall {
    pub id: String,
    pub tool_type: String,
    pub function: FunctionCallResponse,
}

/// Model of [`ToolCall`].
#[verifier::ext_equal]
pub struct ToolCallView {
    pub id: Seq<char>,
    pub tool_type: Seq<char>,
    pub function: FunctionCallResponseView,
}

impl DeepView for ToolCall {
    type V = ToolCallView;

    open spec fn deep_view(&self) -> ToolCallView {
        ToolCallView {
            id: self.id@,
            tool_type: self.tool_type@,
            function: self.function.deep_view(),
        }
    }
}

/// What a function tool is called, what it does and which arguments it takes.
#[derive(Debug, PartialEq, Eq)]
pub struct FunctionDefinition {
    pub name: String,
    pub description: Option<String>,
    pub parameters: Json,
    pub strict: Option<bool>,
}

/// Model of [`FunctionDefinition`].
#[verifier::ext_equal]
pub struct FunctionDefinitionView {
    pub name: Seq<char>,
    pub description: Option<Seq<char>>,
    pub parameters: Seq<char>,
    pub strict: Option<bool>,
}

impl DeepView for FunctionDefinition {
    type V = FunctionDefinitionView;

    open spec fn deep_view(&self) -> FunctionDefinitionView {
        FunctionDefinitionView {
            name: self.name@,
            description: self.description.deep_view(),
            parameters: self.parameters.deep_view(),
            strict: self.strict,
        }
    }
}

impl Clone for FunctionDefinition {
    fn clone(&self) -> (result: Self)
        ensures
            result.deep_view() == self.deep_view(),
    {
        FunctionDefinition {
            name: self.name.clone(),
            description: self.description.clone(),
            parameters: self.parameters.clone(),
            strict: self.strict,
        }
    }
}

/// A tool that a chat request offers to the model.
#[derive(Debug, PartialEq, Eq)]
pub struct Tool {
    pub tool_type: String,
    pub function: FunctionDefinition,
}

/// Model of [`Tool`].
#[verifier::ext_equal]
pub struct ToolView {
    pub tool_type: Seq<char>,
    pub function: FunctionDefinitionView,
}

impl DeepView for Tool {
    type V = ToolView;

    open spec fn deep_view(&self) -> ToolView {
        ToolView { tool_type: self.tool_type@, function: self.function.deep_view() }
    }
}

/// Which of the offered tools the model may or must call.
#[derive(Debug, PartialEq, Eq)]
pub enum ToolChoice {
    Auto,
    Required,
    Disabled,
    Function { name: String },
    AllowedTools { mode: String, tools: Vec<String> },
}

/// Model of [`ToolChoice`].
#[verifier::ext_equal]
pub enum ToolChoiceView {
    Auto,
    Required,
    Disabled,
    Function { name: Seq<char> },
    AllowedTools { mode: Seq<char>, tools: Seq<Seq<char>> },
}

impl DeepView for ToolChoice {
    type V = ToolChoiceView;

    open spec fn deep_view(&self) -> ToolChoiceView {
        match self {
            ToolChoice::Auto => ToolChoiceView::Auto,
            ToolChoice::Required => ToolChoiceView::Required,
            ToolChoice::Disabled => ToolChoiceView::Disabled,
            ToolChoice::Function { name } => ToolChoiceView::Function { name: name@ },
            ToolChoice::AllowedTools { mode, tools } => ToolChoiceView::AllowedTools {
                mode: mode@,
                tools: tools.deep_view(),
            },
        }
    }
}

impl Clone for ToolChoice {
    fn clone(&self) -> (result: Self)
        ensures
            result.deep_view() == self.deep_view(),
    {
        match self {
            ToolChoice::Auto => ToolChoice::Auto,
            ToolChoice::Required => ToolChoice::Required,
            ToolChoice::Disabled => ToolChoice::Disabled,
            ToolChoice::Function { name } => ToolChoice::Function { name: name.clone() },
            ToolChoice::AllowedTools { mode, tools } => ToolChoice::AllowedTools {
                mode: mode.clone(),
                tools: tools.clone(),
            },
        }
    }
}

/// A JSON schema that the model's answer has to meet.
#[derive(Debug, PartialEq, Eq)]
pub struct JsonSchemaFormat {
    pub name: String,
    pub schema: Json,
    pub strict: Option<bool>,
}

/// Model of [`JsonSchemaFormat`].
#[verifier::ext_equal]
pub struct JsonSchemaFormatView {
    pub name: Seq<char>,
    pub schema: Seq<char>,
    pub strict: Option<bool>,
}

impl DeepView for JsonSchemaFormat {
    type V = JsonSchemaFormatView;

    open spec fn deep_view(&self) -> JsonSchemaFormatView {
        JsonSchemaFormatView {
            name: self.name@,
            schema: self.schema.deep_view(),
            strict: self.strict,
        }
    }
}

/// The shape in which a chat request wants its answer.
#[derive(Debug, PartialEq, Eq)]
pub enum ResponseFormat {
    Text,
    JsonObject,
    JsonSchema { json_schema: JsonSchemaFormat },
}

/// Model of [`ResponseFormat`].
#[verifier::ext_equal]
pub enum ResponseFormatView {
    Text,
    JsonObject,
    JsonSchema { json_schema: JsonSchemaFormatView },
}

impl DeepView for ResponseFormat {
    type V = ResponseFormatView;

    open spec fn deep_view(&self) -> ResponseFormatView {
        match self {
            ResponseFormat::Text => ResponseFormatView::Text,
            ResponseFormat::JsonObject => ResponseFormatView::JsonObject,
            ResponseFormat::JsonSchema { json_schema } => ResponseFormatView::JsonSchema {
                json_schema: json_schema.deep_view(),
            },
        }
    }
}

/// Options of a streamed answer.
#[derive(Clone, Copy, Debug, PartialEq, Eq, Structural)]
pub struct StreamOptions {
    pub include_usage: Option<bool>,
}

impl DeepView for StreamOptions {
    type V = StreamOptions;

    open spec fn deep_view(&self) -> StreamOptions {
        *self
    }
}

/// How many of the generated tokens went into what.
#[derive(Clone, Copy, Debug, PartialEq, Eq, Structural)]
pub struct CompletionTokensDetails {
    pub reasoning_tokens: Option<u32>,
}

/// The token counts that a chat answer reports.
#[derive(Clone, Copy, Debug, PartialEq, Eq, Structural)]
pub struct Usage {
    pub prompt_tokens: u32,
    pub completion_tokens: u32,
    pub total_tokens: u32,
    pub completion_tokens_details: Option<CompletionTokensDetails>,
}

impl DeepView for Usage {
    type V = Usage;

    open spec fn deep_view(&self) -> Usage {
        *self
    }
}

/// How many of the prompt's tokens were found in the cache.
#[derive(Clone, Copy, Debug, PartialEq, Eq, Structural)]
pub struct PromptTokensDetails {
    pub cached_tokens: u32,
}

/// Token counts in the flat form that a response reports.
#[derive(Clone, Copy, Debug, PartialEq, Eq, Structural)]
pub struct UsageInfo {
    pub prompt_tokens: u32,
    pub completion_tokens: u32,
    pub total_tokens: u32,
    pub reasoning_tokens: Option<u32>,
    pub prompt_tokens_details: Option<PromptTokensDetails>,
}

} // verus!
