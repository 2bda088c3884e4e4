//! The conversation that every session starts from.
use vstd::prelude::*;
use crate::prompts::{ASSISTANT_MESSAGE, OBJECTIVE_INTRO};
use crate::types::{views, Message, MessageView, Role, TextMessage};

verus! {

/// The two opening turns: the assistant's greeting, then the user's objective.
pub open spec fn initial_views(objective: Seq<char>) -> Seq<MessageView> {
    seq![
        MessageView::Text(Role::Assistant, ASSISTANT_MESSAGE@),
        MessageView::Text(Role::User, OBJECTIVE_INTRO@ + objective),
    ]
}

/// The conversation of a new session for `objective`.
pub fn initialize_messages(objective: &str) -> (r: Vec<Message>)
    ensures
        views(r@) == initial_views(objective@),
{
    let greeting = Message::TextMessage(
        TextMessage { role: Role::Assistant, content: String::from_str(ASSISTANT_MESSAGE) },
    );
    let mut stated = String::from_str(OBJECTIVE_INTRO);
    stated.append(objective);
    let goal = Message::TextMessage(TextMessage { role: Role::User, content: stated });
    let r = vec![greeting, goal];
    assert(views(r@) =~= initial_views(objective@));
    r
}

} // verus!
