//! What the conversion of content owes to the parts it is given.

use crate::content::{
    chat_content, chat_part, chat_parts, has_image, part_text, text_of, tool_content,
};
use crate::protocols::chat::MessageContentView;
use crate::protocols::common::{ChatLogProbsView, ContentPartView, ImageUrlView};
use crate::protocols::responses::{
    FunctionCallOutputContentView, ResponseContentPartView, ResponseImageUrlValueView,
};
use crate::text::joined;
use vstd::prelude::*;

verus! {

broadcast use vstd::seq_lib::group_seq_properties;

/// Joining nothing gives nothing, joining one text gives that text.
pub proof fn law_joining_few_texts(text: Seq<char>, sep: Seq<char>)
    ensures
        joined(seq![], sep) == Seq::<char>::empty(),
        joined(seq![text], sep) == text,
{
    let behind = |text: Seq<char>| sep + text;
    assert(seq![text].skip(1).map_values(behind) == Seq::<Seq<char>>::empty());
}

/// Texts can be joined in two halves: one separator comes between the halves.
pub proof fn law_joining_in_halves(
    first: Seq<Seq<char>>,
    second: Seq<Seq<char>>,
    sep: Seq<char>,
)
    requires
        first.len() > 0,
        second.len() > 0,
    ensures
        joined(first + second, sep) == joined(first, sep) + sep + joined(second, sep),
{
    let behind = |text: Seq<char>| sep + text;
    let left = first.skip(1).map_values(behind);
    let right = second.skip(1).map_values(behind);
    let middle = seq![sep + second[0]];
    assert((first + second).skip(1).map_values(behind) == left + (middle + right));
    vstd::seq_lib::lemma_flatten_concat(left, middle + right);
    vstd::seq_lib::lemma_flatten_concat(middle, right);
    middle.lemma_flatten_one_element();
}

/// A text part keeps its text, whether it went into the model or came out of it.
pub proof fn law_text_parts_keep_their_text(
    text: Seq<char>,
    annotations: Seq<Seq<char>>,
    logprobs: Option<ChatLogProbsView>,
)
    ensures
        chat_part(ResponseContentPartView::InputText { text }) == Some(
            ContentPartView::Text { text },
        ),
        chat_part(ResponseContentPartView::OutputText { text, annotations, logprobs }) == Some(
            ContentPartView::Text { text },
        ),
        chat_part(ResponseContentPartView::Unknown) is None,
{
}

/// An image under a bare URL keeps the URL and the detail level of its part; without a level it
/// gets `"auto"`.
pub proof fn law_bare_url_images(url: Seq<char>, detail: Seq<char>)
    ensures
        ({
            let image_url = ResponseImageUrlValueView::Url(url);
            &&& chat_part(ResponseContentPartView::InputImage { image_url, detail: Some(detail) })
                == Some(
                ContentPartView::ImageUrl { image_url: ImageUrlView { url, detail: Some(detail) } },
            )
            &&& chat_part(ResponseContentPartView::InputImage { image_url, detail: None }) == Some(
                ContentPartView::ImageUrl {
                    image_url: ImageUrlView { url, detail: Some("auto"@) },
                },
            )
        }),
{
}

/// An image whose URL comes with a detail level keeps both, whatever level its part has.
pub proof fn law_images_with_their_own_detail(
    url: Seq<char>,
    detail: Seq<char>,
    part_detail: Option<Seq<char>>,
)
    ensures
        chat_part(
            ResponseContentPartView::InputImage {
                image_url: ResponseImageUrlValueView::Object { url, detail: Some(detail) },
                detail: part_detail,
            },
        ) == Some(
            ContentPartView::ImageUrl { image_url: ImageUrlView { url, detail: Some(detail) } },
        ),
{
}

/// A URL object without a detail level of its own says as much as the bare URL.
pub proof fn law_objects_without_detail_are_bare_urls(url: Seq<char>, detail: Option<Seq<char>>)
    ensures
        chat_part(
            ResponseContentPartView::InputImage {
                image_url: ResponseImageUrlValueView::Object { url, detail: None },
                detail,
            },
        ) == chat_part(
            ResponseContentPartView::InputImage {
                image_url: ResponseImageUrlValueView::Url(url),
                detail,
            },
        ),
{
}

/// A URL value gives back the URL and the detail level that it was made of.
pub proof fn law_url_values_give_back_what_they_hold(url: Seq<char>, detail: Option<Seq<char>>)
    ensures
        ResponseImageUrlValueView::Url(url).url() == url,
        ResponseImageUrlValueView::Url(url).detail() is None,
        (ResponseImageUrlValueView::Object { url, detail }).url() == url,
        (ResponseImageUrlValueView::Object { url, detail }).detail() == detail,
{
}

proof fn lemma_filter_map_concat<A, B>(first: Seq<A>, second: Seq<A>, f: spec_fn(A) -> Option<B>)
    ensures
        (first + second).filter_map(f) == first.filter_map(f) + second.filter_map(f),
    decreases second.len(),
{
    if second.len() == 0 {
        assert(first + second == first);
    } else {
        lemma_filter_map_concat(first, second.drop_last(), f);
        assert((first + second).drop_last() == first + second.drop_last());
    }
}

/// The text of two runs of parts is the text of the first followed by the text of the second.
pub proof fn law_texts_follow_each_other(
    first: Seq<ResponseContentPartView>,
    second: Seq<ResponseContentPartView>,
)
    ensures
        text_of(first + second) == text_of(first) + text_of(second),
{
    let convert = |part: ResponseContentPartView| part_text(part);
    lemma_filter_map_concat(first, second, convert);
    vstd::seq_lib::lemma_flatten_concat(first.filter_map(convert), second.filter_map(convert));
}

/// Of a single part, the text is what a text part says; images and unknown parts say nothing, and
/// neither does an empty content.
pub proof fn law_text_of_a_single_part(
    text: Seq<char>,
    annotations: Seq<Seq<char>>,
    logprobs: Option<ChatLogProbsView>,
    image_url: ResponseImageUrlValueView,
    detail: Option<Seq<char>>,
)
    ensures
        text_of(seq![]) == Seq::<char>::empty(),
        text_of(seq![ResponseContentPartView::InputText { text }]) == text,
        text_of(seq![ResponseContentPartView::OutputText { text, annotations, logprobs }]) == text,
        text_of(seq![ResponseContentPartView::InputImage { image_url, detail }]) == Seq::<
            char,
        >::empty(),
        text_of(seq![ResponseContentPartView::Unknown]) == Seq::<char>::empty(),
{
    let convert = |part: ResponseContentPartView| part_text(part);
    let input = ResponseContentPartView::InputText { text };
    let output = ResponseContentPartView::OutputText { text, annotations, logprobs };
    let image = ResponseContentPartView::InputImage { image_url, detail };
    Seq::lemma_filter_map_singleton(input, convert);
    Seq::lemma_filter_map_singleton(output, convert);
    Seq::lemma_filter_map_singleton(image, convert);
    Seq::lemma_filter_map_singleton(ResponseContentPartView::Unknown, convert);
    seq![text].lemma_flatten_one_element();
}

/// Content without an image becomes plain text: its own.
pub proof fn law_content_without_images_is_plain(parts: Seq<ResponseContentPartView>)
    requires
        forall|i: int| 0 <= i < parts.len() ==> !(#[trigger] parts[i] is InputImage),
    ensures
        chat_content(parts) == MessageContentView::Text(text_of(parts)),
{
}

/// Whether a chat part carries what a content part holds: the same text, or an image under the
/// same URL with the level of detail that was asked for.
pub open spec fn carries(got: ContentPartView, given: ResponseContentPartView) -> bool {
    match (given, got) {
        (
            ResponseContentPartView::InputText { text },
            ContentPartView::Text { text: got_text },
        ) => got_text == text,
        (
            ResponseContentPartView::OutputText { text, .. },
            ContentPartView::Text { text: got_text },
        ) => got_text == text,
        (
            ResponseContentPartView::InputImage {
                image_url: ResponseImageUrlValueView::Url(url),
                detail,
            },
            ContentPartView::ImageUrl { image_url },
        ) => {
            &&& image_url.url == url
            &&& image_url.detail == (if detail is Some {
                detail
            } else {
                Some("auto"@)
            })
        },
        (
            ResponseContentPartView::InputImage {
                image_url: ResponseImageUrlValueView::Object { url, detail: own },
                detail,
            },
            ContentPartView::ImageUrl { image_url },
        ) => {
            &&& image_url.url == url
            &&& image_url.detail == (if own is Some {
                own
            } else if detail is Some {
                detail
            } else {
                Some("auto"@)
            })
        },
        _ => false,
    }
}

proof fn lemma_known_parts_one_by_one(parts: Seq<ResponseContentPartView>)
    requires
        forall|i: int| 0 <= i < parts.len() ==> !(#[trigger] parts[i] is Unknown),
    ensures
        chat_parts(parts).len() == parts.len(),
        forall|i: int| 0 <= i < parts.len() ==> carries(#[trigger] chat_parts(parts)[i], parts[i]),
    decreases parts.len(),
{
    if parts.len() > 0 {
        let rest = parts.drop_last();
        assert forall|i: int| 0 <= i < rest.len() implies !(#[trigger] rest[i] is Unknown) by {
            assert(rest[i] == parts[i]);
        }
        lemma_known_parts_one_by_one(rest);
        assert(!(parts[parts.len() - 1] is Unknown));
        let last = chat_part(parts.last())->0;
        assert(chat_parts(parts) == chat_parts(rest) + seq![last]);
        assert forall|i: int| 0 <= i < parts.len() implies carries(
            #[trigger] chat_parts(parts)[i],
            parts[i],
        ) by {
            if i < rest.len() {
                assert(chat_parts(parts)[i] == chat_parts(rest)[i]);
                assert(parts[i] == rest[i]);
            }
        }
    }
}

/// With an image among them, known parts are kept one by one, each carrying what it was given.
pub proof fn law_content_with_images_is_kept_part_by_part(
    parts: Seq<ResponseContentPartView>,
    image: int,
)
    requires
        0 <= image < parts.len(),
        parts[image] is InputImage,
        forall|i: int| 0 <= i < parts.len() ==> !(#[trigger] parts[i] is Unknown),
    ensures
        chat_content(parts) matches MessageContentView::Parts(kept) && kept.len() == parts.len()
            && forall|i: int| 0 <= i < parts.len() ==> carries(#[trigger] kept[i], parts[i]),
{
    lemma_known_parts_one_by_one(parts);
    assert(has_image(parts));
}

/// A part of an unknown kind can as well be left away.
pub proof fn law_unknown_parts_do_not_matter(
    before: Seq<ResponseContentPartView>,
    after: Seq<ResponseContentPartView>,
)
    ensures
        chat_content(before + seq![ResponseContentPartView::Unknown] + after) == chat_content(
            before + after,
        ),
{
    let unknown = seq![ResponseContentPartView::Unknown];
    let texts = |part: ResponseContentPartView| part_text(part);
    let converted = |part: ResponseContentPartView| chat_part(part);
    lemma_filter_map_concat(before + unknown, after, texts);
    lemma_filter_map_concat(before, unknown, texts);
    lemma_filter_map_concat(before, after, texts);
    lemma_filter_map_concat(before + unknown, after, converted);
    lemma_filter_map_concat(before, unknown, converted);
    lemma_filter_map_concat(before, after, converted);
    Seq::lemma_filter_map_singleton(ResponseContentPartView::Unknown, texts);
    Seq::lemma_filter_map_singleton(ResponseContentPartView::Unknown, converted);
    let with = before + unknown + after;
    let without = before + after;
    if has_image(with) {
        let i = choose|i: int| 0 <= i < with.len() && #[trigger] with[i] is InputImage;
        if i < before.len() {
            assert(without[i] == with[i]);
        } else {
            assert(without[i - 1] == with[i]);
        }
    }
    if has_image(without) {
        let i = choose|i: int| 0 <= i < without.len() && #[trigger] without[i] is InputImage;
        if i < before.len() {
            assert(with[i] == without[i]);
        } else {
            assert(with[i + 1] == without[i]);
        }
    }
}

/// What a tool gave back as text stays that text; what it gave back as parts is converted like
/// the content of a message.
pub proof fn law_tool_outputs_are_converted_like_messages(
    text: Seq<char>,
    parts: Seq<ResponseContentPartView>,
)
    ensures
        tool_content(FunctionCallOutputContentView::Text(text)) == MessageContentView::Text(text),
        tool_content(FunctionCallOutputContentView::Parts(parts)) == chat_content(parts),
{
}

} // verus!
