//! The content of messages: texts and images.

use crate::protocols::chat::{MessageContent, MessageContentView};
use crate::protocols::common::{ContentPart, ContentPartView, ImageUrl, ImageUrlView};
use crate::protocols::responses::{
    FunctionCallOutputContent, FunctionCallOutputContentView, ResponseContentPart,
    ResponseContentPartView,
};
use crate::text::{join, lemma_joined_by_nothing};
use vstd::prelude::*;

verus! {

/// The text of a content part, if it is a text.
pub open spec fn part_text(part: ResponseContentPartView) -> Option<Seq<char>> {
    match part {
        ResponseContentPartView::InputText { text } => Some(text),
        ResponseContentPartView::OutputText { text, .. } => Some(text),
        _ => None,
    }
}

/// The texts among the parts, one after the other.
pub open spec fn text_of(parts: Seq<ResponseContentPartView>) -> Seq<char> {
    parts.filter_map(|part: ResponseContentPartView| part_text(part)).flatten()
}

/// The detail level of an image: the one that came with its URL, else the part's own, else
/// `"auto"`.
pub open spec fn image_detail(
    url_detail: Option<Seq<char>>,
    part_detail: Option<Seq<char>>,
) -> Seq<char> {
    match (url_detail, part_detail) {
        (Some(detail), _) => detail,
        (None, Some(detail)) => detail,
        (None, None) => "auto"@,
    }
}

/// The chat part for a content part, if there is one.
pub open spec fn chat_part(part: ResponseContentPartView) -> Option<ContentPartView> {
    match part {
        ResponseContentPartView::InputText { text } => Some(ContentPartView::Text { text }),
        ResponseContentPartView::OutputText { text, .. } => Some(ContentPartView::Text { text }),
        ResponseContentPartView::InputImage { image_url, detail } => Some(
            ContentPartView::ImageUrl {
                image_url: ImageUrlView {
                    url: image_url.url(),
                    detail: Some(image_detail(image_url.detail(), detail)),
                },
            },
        ),
        ResponseContentPartView::Unknown => None,
    }
}

/// The chat parts for the content parts, in their order.
pub open spec fn chat_parts(parts: Seq<ResponseContentPartView>) -> Seq<ContentPartView> {
    parts.filter_map(|part: ResponseContentPartView| chat_part(part))
}

/// Whether there is an image among the parts.
pub open spec fn has_image(parts: Seq<ResponseContentPartView>) -> bool {
    exists|i: int| 0 <= i < parts.len() && #[trigger] parts[i] is InputImage
}

/// The content of a chat message for the content parts: plain text unless there is an image.
pub open spec fn chat_content(parts: Seq<ResponseContentPartView>) -> MessageContentView {
    if has_image(parts) {
        MessageContentView::Parts(chat_parts(parts))
    } else {
        MessageContentView::Text(text_of(parts))
    }
}

/// The content of a tool message for what the tool gave back.
pub open spec fn tool_content(output: FunctionCallOutputContentView) -> MessageContentView {
    match output {
        FunctionCallOutputContentView::Text(text) => MessageContentView::Text(text),
        FunctionCallOutputContentView::Parts(parts) => chat_content(parts),
    }
}

/// Extracts the text of content parts; parts of other kinds are left out.
pub fn extract_text_from_content(content: &[ResponseContentPart]) -> (result: String)
    ensures
        result@ == text_of(content.deep_view()),
{
    let mut texts: Vec<&str> = Vec::new();
    let ghost all = content.deep_view();
    let ghost convert = |part: ResponseContentPartView| part_text(part);
    for i in 0..content.len()
        invariant
            all == content.deep_view(),
            convert == (|part: ResponseContentPartView| part_text(part)),
            texts.deep_view() == all.take(i as int).filter_map(convert),
    {
        proof {
            all.lemma_filter_map_take_succ(convert, i as int);
            assert(all[i as int] == content[i as int].deep_view());
        }
        match &content[i] {
            ResponseContentPart::InputText { text } => texts.push(text.as_str()),
            ResponseContentPart::OutputText { text, .. } => texts.push(text.as_str()),
            _ => {},
        }
    }
    proof {
        assert(all.take(all.len() as int) == all);
        lemma_joined_by_nothing(texts.deep_view());
        reveal_strlit("");
        assert(""@ == Seq::<char>::empty());
    }
    join(&texts, "")
}

/// Converts a single content part; `None` for a part that has no chat equivalent.
pub fn response_content_part_to_chat(part: &ResponseContentPart) -> (result: Option<ContentPart>)
    ensures
        result.deep_view() == chat_part(part.deep_view()),
{
    match part {
        ResponseContentPart::InputText { text } => Some(ContentPart::Text { text: text.clone() }),
        ResponseContentPart::OutputText { text, .. } => Some(
            ContentPart::Text { text: text.clone() },
        ),
        ResponseContentPart::InputImage { image_url, detail } => {
            let chosen = match (image_url.detail(), detail) {
                (Some(url_detail), _) => url_detail.to_string(),
                (None, Some(part_detail)) => part_detail.clone(),
                (None, None) => "auto".to_string(),
            };
            Some(
                ContentPart::ImageUrl {
                    image_url: ImageUrl { url: image_url.url().to_string(), detail: Some(chosen) },
                },
            )
        },
        ResponseContentPart::Unknown => None,
    }
}

/// Converts content parts. Texts alone become plain text; as soon as there is an image, every
/// part is kept as a part of its own, so that no image is lost.
pub fn convert_content_parts(parts: &[ResponseContentPart]) -> (result: MessageContent)
    ensures
        result.deep_view() == chat_content(parts.deep_view()),
{
    let ghost all = parts.deep_view();
    let mut image_found = false;
    for i in 0..parts.len()
        invariant
            all == parts.deep_view(),
            image_found == has_image(all.take(i as int)),
    {
        let ghost seen = all.take(i as int);
        let ghost more = all.take(i + 1);
        assert(all[i as int] == parts[i as int].deep_view());
        assert(more[i as int] == all[i as int]);
        assert(forall|j: int| 0 <= j < i ==> #[trigger] more[j] == seen[j]);
        if let ResponseContentPart::InputImage { .. } = &parts[i] {
            image_found = true;
        } else if image_found {
            let ghost at = choose|j: int| 0 <= j < seen.len() && #[trigger] seen[j] is InputImage;
            assert(more[at] is InputImage);
        }
    }
    assert(all.take(all.len() as int) == all);
    if !image_found {
        return MessageContent::Text(extract_text_from_content(parts));
    }
    let mut converted: Vec<ContentPart> = Vec::new();
    let ghost convert = |part: ResponseContentPartView| chat_part(part);
    for i in 0..parts.len()
        invariant
            all == parts.deep_view(),
            convert == (|part: ResponseContentPartView| chat_part(part)),
            converted.deep_view() == all.take(i as int).filter_map(convert),
    {
        proof {
            all.lemma_filter_map_take_succ(convert, i as int);
            assert(all[i as int] == parts[i as int].deep_view());
        }
        if let Some(part) = response_content_part_to_chat(&parts[i]) {
            converted.push(part);
        }
    }
    MessageContent::Parts(converted)
}

/// Converts what a tool gave back, and keeps its images as [`convert_content_parts`] does.
pub fn function_call_output_to_message_content(
    output: &FunctionCallOutputContent,
) -> (result: MessageContent)
    ensures
        result.deep_view() == tool_content(output.deep_view()),
{
    match output {
        FunctionCallOutputContent::Text(text) => MessageContent::Text(text.clone()),
        FunctionCallOutputContent::Parts(parts) => {
            let slice = parts.as_slice();
            assert(slice.deep_view() == parts.deep_view());
            convert_content_parts(slice)
        },
    }
}

} // verus!
