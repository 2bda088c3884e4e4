//! The conversation exchanged with the vision model.
use vstd::prelude::*;

verus! {

/// Who spoke a turn.
#[derive(PartialEq, Eq, Structural, Clone, Copy, Debug)]
pub enum Role {
    User,
    Assistant,
}

/// A turn of plain text.
#[derive(Clone, Debug)]
pub struct TextMessage {
    pub role: Role,
    pub content: String,
}

/// One part of a turn that carries an image.
#[derive(Clone, Debug)]
pub enum ImageMessageContent {
    Text { text: String },
    ImageUrl { image_url: ImageUrl },
}

/// An embedded image, as a data URI.
#[derive(Clone, Debug)]
pub struct ImageUrl {
    pub url: String,
}

/// A turn made of text and image parts, in order.
#[derive(Clone, Debug)]
pub struct ImageMessage {
    pub role: Role,
    pub content: Vec<ImageMessageContent>,
}

/// What is sent to the vision model.
#[derive(Debug)]
pub struct OpenAIRequest {
    pub model: String,
    pub messages: Vec<Message>,
    pub max_tokens: i32,
}

/// A turn of the conversation.
#[derive(Clone, Debug)]
pub enum Message {
    TextMessage(TextMessage),
    ImageMessage(ImageMessage),
}

/// The model of one image-turn part: its text, or its image URL.
pub enum PartView {
    Text(Seq<char>),
    Url(Seq<char>),
}

/// The model of a turn.
pub enum MessageView {
    Text(Role, Seq<char>),
    Image(Role, Seq<PartView>),
}

impl ImageMessageContent {
    pub open spec fn view(&self) -> PartView {
        match self {
            ImageMessageContent::Text { text } => PartView::Text(text@),
            ImageMessageContent::ImageUrl { image_url } => PartView::Url(image_url.url@),
        }
    }
}

impl Message {
    pub open spec fn view(&self) -> MessageView {
        match self {
            Message::TextMessage(t) => MessageView::Text(t.role, t.content@),
            Message::ImageMessage(m) => MessageView::Image(
                m.role,
                m.content@.map_values(|p: ImageMessageContent| p.view()),
            ),
        }
    }
}

/// The models of a sequence of turns.
pub open spec fn views(ms: Seq<Message>) -> Seq<MessageView> {
    ms.map_values(|m: Message| m.view())
}

/// A copy of a part.
pub fn copy_part(p: &ImageMessageContent) -> (r: ImageMessageContent)
    ensures
        r.view() == p.view(),
{
    match p {
        ImageMessageContent::Text { text } => ImageMessageContent::Text { text: text.clone() },
        ImageMessageContent::ImageUrl { image_url } => ImageMessageContent::ImageUrl {
            image_url: ImageUrl { url: image_url.url.clone() },
        },
    }
}

/// A copy of a turn.
pub fn copy_message(m: &Message) -> (r: Message)
    ensures
        r.view() == m.view(),
{
    match m {
        Message::TextMessage(t) => Message::TextMessage(
            TextMessage { role: t.role, content: t.content.clone() },
        ),
        Message::ImageMessage(im) => {
            let mut parts: Vec<ImageMessageContent> = Vec::new();
            let mut i: usize = 0;
            while i < im.content.len()
                invariant
                    i <= im.content@.len(),
                    parts@.len() == i,
                    forall|k: int| 0 <= k < i ==> #[trigger] parts@[k].view() == im.content@[k].view(),
                decreases im.content@.len() - i,
            {
                parts.push(copy_part(&im.content[i]));
                i = i + 1;
            }
            let r = Message::ImageMessage(ImageMessage { role: im.role, content: parts });
            assert(parts@.map_values(|p: ImageMessageContent| p.view()) =~= im.content@.map_values(
                |p: ImageMessageContent| p.view(),
            ));
            r
        },
    }
}

/// A copy of a conversation.
pub fn copy_messages(ms: &Vec<Message>) -> (r: Vec<Message>)
    ensures
        views(r@) == views(ms@),
{
    let mut r: Vec<Message> = Vec::new();
    let mut i: usize = 0;
    while i < ms.len()
        invariant
            i <= ms@.len(),
            r@.len() == i,
            forall|k: int| 0 <= k < i ==> #[trigger] r@[k].view() == ms@[k].view(),
        decreases ms@.len() - i,
    {
        r.push(copy_message(&ms[i]));
        i = i + 1;
    }
    assert(views(r@) =~= views(ms@));
    r
}

} // verus!
