//! Assembling what is sent to the vision model, and keeping the history
//! once it has answered.
use base64::Engine;
use vstd::prelude::*;
use crate::parsers::{
    format_summary_prompt, format_vision_prompt, get_last_assistant_message, last_assistant,
    summary_prompt, vision_prompt,
};
use crate::text::{remove_char, without};
use crate::types::{
    copy_messages, views, ImageMessage, ImageMessageContent, ImageUrl, Message, MessageView,
    OpenAIRequest, PartView, Role, TextMessage,
};

verus! {

/// The model that is asked for the next action.
pub const MODEL: &'static str = "gpt-4-vision-preview";

/// The budget of output tokens for each reply.
pub const MAX_TOKENS: i32 = 300;

/// What opens the data URI of an embedded screenshot.
pub const JPEG_DATA_PREFIX: &'static str = "data:image/jpeg;base64,";

/// The name under which a grid screenshot is recorded in the history.
pub const SCREENSHOT_NAME: &'static str = "screenshot.png";

/// The name under which the summary screenshot is recorded in the history.
pub const SUMMARY_SCREENSHOT_NAME: &'static str = "summary_screenshot.png";

/// The standard, padded base64 encoding of `bytes`.
pub uninterp spec fn base64_of(bytes: Seq<u8>) -> Seq<char>;

/// Relies on base64's `STANDARD` engine `encode`: the padded base64 text of
/// the bytes, which depends on the bytes alone. It panics only where the
/// encoded length overflows, which the bound on the input rules out.
#[verifier::external_body]
fn encode_base64(bytes: &Vec<u8>) -> (r: String)
    requires
        bytes@.len() <= usize::MAX / 2,
    ensures
        r@ == base64_of(bytes@),
{
    base64::engine::general_purpose::STANDARD.encode(bytes)
}

/// The data URI that embeds an image.
pub open spec fn data_uri(image: Seq<u8>) -> Seq<char> {
    JPEG_DATA_PREFIX@ + base64_of(image)
}

/// The data URI that embeds the encoded image `image`.
pub fn image_data_uri(image: &Vec<u8>) -> (r: String)
    requires
        image@.len() <= usize::MAX / 2,
    ensures
        r@ == data_uri(image@),
{
    let mut r = String::from_str(JPEG_DATA_PREFIX);
    let encoded = encode_base64(image);
    r.append(encoded.as_str());
    r
}

/// A user turn of a prompt followed by an image.
pub open spec fn prompt_turn(prompt: Seq<char>, image: Seq<u8>) -> MessageView {
    MessageView::Image(Role::User, seq![PartView::Text(prompt), PartView::Url(data_uri(image))])
}

fn image_turn(prompt: String, image: &Vec<u8>) -> (r: Message)
    requires
        image@.len() <= usize::MAX / 2,
    ensures
        r.view() == prompt_turn(prompt@, image@),
{
    let url = image_data_uri(image);
    let ghost pv = prompt@;
    let ghost uv = url@;
    let parts = vec![
        ImageMessageContent::Text { text: prompt },
        ImageMessageContent::ImageUrl { image_url: ImageUrl { url } },
    ];
    assert(parts@.map_values(|p: ImageMessageContent| p.view()) =~= seq![
        PartView::Text(pv),
        PartView::Url(uv),
    ]);
    let r = Message::ImageMessage(ImageMessage { role: Role::User, content: parts });
    r
}

/// The turn that asks for the next action: the vision prompt for
/// `objective`, naming the last assistant reply, then the annotated screenshot.
pub fn build_vision_message(objective: &str, messages: &mut Vec<Message>, image: &Vec<u8>) -> (r:
    Message)
    requires
        image@.len() <= usize::MAX / 2,
    ensures
        *final(messages) == *old(messages),
        r.view() == prompt_turn(
            vision_prompt(objective@, last_assistant(views(old(messages)@))),
            image@,
        ),
{
    let previous_action = get_last_assistant_message(messages);
    let prompt = format_vision_prompt(objective, previous_action.as_str());
    image_turn(prompt, image)
}

/// The turn that asks for the final report: the summary prompt for
/// `objective`, then the last screenshot.
pub fn build_summary_message(objective: &str, image: &Vec<u8>) -> (r: Message)
    requires
        image@.len() <= usize::MAX / 2,
    ensures
        r.view() == prompt_turn(summary_prompt(objective@), image@),
{
    let prompt = format_summary_prompt(objective);
    image_turn(prompt, image)
}

/// The request for the history `messages` followed by `turn`; the stored
/// history itself is left as it is.
pub fn build_request(messages: &Vec<Message>, turn: Message) -> (r: OpenAIRequest)
    ensures
        views(r.messages@) == views(messages@).push(turn.view()),
        r.model@ == MODEL@,
        r.max_tokens == MAX_TOKENS,
{
    let mut snapshot = copy_messages(messages);
    let ghost before = snapshot@;
    snapshot.push(turn);
    assert(views(snapshot@) =~= views(before).push(turn.view()));
    OpenAIRequest { model: String::from_str(MODEL), messages: snapshot, max_tokens: MAX_TOKENS }
}

/// The two turns kept once a reply has come: the user's reference to the
/// screenshot, then the reply.
pub open spec fn exchange(screenshot: Seq<char>, reply: Seq<char>) -> Seq<MessageView> {
    seq![MessageView::Text(Role::User, screenshot), MessageView::Text(Role::Assistant, reply)]
}

/// Appends the screenshot reference and the reply to the history.
pub fn record_exchange(messages: &mut Vec<Message>, screenshot: &str, reply: &str)
    ensures
        views(final(messages)@) == views(old(messages)@) + exchange(screenshot@, reply@),
{
    let ghost before = messages@;
    messages.push(
        Message::TextMessage(
            TextMessage { role: Role::User, content: String::from_str(screenshot) },
        ),
    );
    messages.push(
        Message::TextMessage(
            TextMessage { role: Role::Assistant, content: String::from_str(reply) },
        ),
    );
    assert(views(messages@) =~= views(before) + exchange(screenshot@, reply@));
}

/// The reply as the parser receives it: without its escaping backslashes.
pub fn clean_reply(content: &str) -> (r: String)
    ensures
        r@ == without(content@, '\\'),
{
    remove_char(content, '\\')
}

} // verus!
