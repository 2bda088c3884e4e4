//! Turning model replies into actions, and filling the prompt templates.
use vstd::prelude::*;
use crate::grammar::{
    capture_click, capture_word, click_capture, first_word_match, is_space, line_end,
    occurs_at_exec, starts_with, word_capture, word_match_at,
};
use crate::prompts::{
    PREVIOUS_ACTION_INTRO, SUMMARY_PROMPT_HEAD, SUMMARY_PROMPT_TAIL, VISION_PROMPT_HEAD,
    VISION_PROMPT_MIDDLE, VISION_PROMPT_TAIL,
};
use crate::text::{
    lemma_trim_end_after, lemma_trim_end_shape, lemma_trim_end_suffix, lemma_trim_start_prefix,
    remove_char, trim, trim_end, trim_matches, trim_start, without,
};
use crate::types::{Message, MessageView, Role};

verus! {

/// The kind of action that a reply names.
#[derive(PartialEq, Eq, Structural, Clone, Copy, Debug)]
pub enum ActionType {
    Search,
    Type,
    Click,
    Unknown,
    Done,
}

pub open spec fn done_word() -> Seq<char> {
    seq!['D', 'O', 'N', 'E']
}

pub open spec fn click_word() -> Seq<char> {
    seq!['C', 'L', 'I', 'C', 'K']
}

pub open spec fn type_word() -> Seq<char> {
    seq!['T', 'Y', 'P', 'E']
}

pub open spec fn search_word() -> Seq<char> {
    seq!['S', 'E', 'A', 'R', 'C', 'H']
}

pub open spec fn unknown_word() -> Seq<char> {
    seq!['U', 'N', 'K', 'N', 'O', 'W', 'N']
}

/// The kind that `s` names: exactly `DONE`, or one of the other keywords
/// at its start, tried in this order.
pub open spec fn action_type_of(s: Seq<char>) -> ActionType {
    if s == done_word() {
        ActionType::Done
    } else if starts_with(s, click_word()) {
        ActionType::Click
    } else if starts_with(s, type_word()) {
        ActionType::Type
    } else if starts_with(s, search_word()) {
        ActionType::Search
    } else {
        ActionType::Unknown
    }
}

/// The quote and backslash characters that replies arrive wrapped in.
pub open spec fn quote_chars() -> Seq<char> {
    seq!['"', '\\']
}

/// The quote and percent characters around a percentage.
pub open spec fn percent_chars() -> Seq<char> {
    seq!['"', '%']
}

/// The reply with its wrapping quotes and backslashes removed.
pub open spec fn cleaned(response: Seq<char>) -> Seq<char> {
    trim(response, quote_chars())
}

/// What a reply parses to: the action's keyword and its detail. A click's
/// payload loses every escaping backslash and is wrapped in single braces;
/// a typed or searched text loses the quotes and backslashes around it.
pub open spec fn parsed(response: Seq<char>) -> (Seq<char>, Seq<char>) {
    let c = cleaned(response);
    match action_type_of(c) {
        ActionType::Done => (done_word(), Seq::empty()),
        ActionType::Click => match click_capture(c) {
            Some(g) => (click_word(), seq!['{'] + without(g, '\\') + seq!['}']),
            None => (unknown_word(), c),
        },
        ActionType::Type => match word_capture(c, type_word()) {
            Some(g) => (type_word(), trim(g, quote_chars())),
            None => (unknown_word(), c),
        },
        ActionType::Search => match word_capture(c, search_word()) {
            Some(g) => (search_word(), trim(g, quote_chars())),
            None => (unknown_word(), c),
        },
        ActionType::Unknown => (unknown_word(), c),
    }
}

/// A fresh string holding `s`.
fn owned(s: &str) -> (r: String)
    ensures
        r@ == s@,
{
    String::from_str(s)
}

impl ActionType {
    /// The kind of action that `s` names.
    pub fn from_str(s: &str) -> (r: Self)
        ensures
            r == action_type_of(s@),
    {
        proof {
            reveal_strlit("DONE");
            reveal_strlit("CLICK");
            reveal_strlit("TYPE");
            reveal_strlit("SEARCH");
            assert("DONE"@ =~= done_word());
            assert("CLICK"@ =~= click_word());
            assert("TYPE"@ =~= type_word());
            assert("SEARCH"@ =~= search_word());
        }
        let n = s.unicode_len();
        if n == 4 && occurs_at_exec(s, n, "DONE", 0) {
            assert(s@ =~= s@.subrange(0, 4));
            ActionType::Done
        } else if occurs_at_exec(s, n, "CLICK", 0) {
            ActionType::Click
        } else if occurs_at_exec(s, n, "TYPE", 0) {
            ActionType::Type
        } else if occurs_at_exec(s, n, "SEARCH", 0) {
            ActionType::Search
        } else {
            proof {
                if s@ == done_word() {
                    assert(s@.subrange(0, 4) =~= s@);
                }
            }
            ActionType::Unknown
        }
    }
}

/// The summary prompt: its template with the objective filled in.
pub open spec fn summary_prompt(objective: Seq<char>) -> Seq<char> {
    SUMMARY_PROMPT_HEAD@ + objective + SUMMARY_PROMPT_TAIL@
}

/// The sentence that names the previous action; nothing when there is none.
pub open spec fn previous_action_clause(previous_action: Seq<char>) -> Seq<char> {
    if previous_action.len() == 0 {
        Seq::empty()
    } else {
        PREVIOUS_ACTION_INTRO@ + previous_action
    }
}

/// The vision prompt: its template with the previous-action clause and the
/// objective filled in.
pub open spec fn vision_prompt(objective: Seq<char>, previous_action: Seq<char>) -> Seq<char> {
    VISION_PROMPT_HEAD@ + previous_action_clause(previous_action) + VISION_PROMPT_MIDDLE@
        + objective + VISION_PROMPT_TAIL@
}

/// Fills the summary template.
pub fn format_summary_prompt(objective: &str) -> (r: String)
    ensures
        r@ == summary_prompt(objective@),
{
    let mut r = owned(SUMMARY_PROMPT_HEAD);
    r.append(objective);
    r.append(SUMMARY_PROMPT_TAIL);
    r
}

/// Fills the vision template; the previous-action sentence is left out
/// entirely when `previous_action` is empty.
pub fn format_vision_prompt(objective: &str, previous_action: &str) -> (r: String)
    ensures
        r@ == vision_prompt(objective@, previous_action@),
{
    let mut r = owned(VISION_PROMPT_HEAD);
    if previous_action.unicode_len() > 0 {
        r.append(PREVIOUS_ACTION_INTRO);
        r.append(previous_action);
    }
    r.append(VISION_PROMPT_MIDDLE);
    r.append(objective);
    r.append(VISION_PROMPT_TAIL);
    proof {
        if previous_action@.len() == 0 {
            assert(r@ =~= vision_prompt(objective@, previous_action@));
        } else {
            assert(r@ =~= vision_prompt(objective@, previous_action@));
        }
    }
    r
}

/// Parses a reply into the keyword of its action and the action's detail.
/// A reply that follows no rule of the grammar, a click reply whose payload
/// does not match included, gives `UNKNOWN` with the cleaned reply.
pub fn parse_openai_response(response: &str) -> (r: Result<(String, String), &'static str>)
    ensures
        r is Ok,
        r matches Ok((a, d)) ==> (a@, d@) == parsed(response@),
{
    proof {
        reveal_strlit("DONE");
        reveal_strlit("CLICK");
        reveal_strlit("TYPE");
        reveal_strlit("SEARCH");
        reveal_strlit("UNKNOWN");
        reveal_strlit("");
        reveal_strlit("{");
        reveal_strlit("}");
        assert("DONE"@ =~= done_word());
        assert("CLICK"@ =~= click_word());
        assert("TYPE"@ =~= type_word());
        assert("SEARCH"@ =~= search_word());
        assert("UNKNOWN"@ =~= unknown_word());
        assert(""@ =~= Seq::<char>::empty());
        assert("{"@ =~= seq!['{']);
        assert("}"@ =~= seq!['}']);
    }
    let quotes = vec!['"', '\\'];
    assert(quotes@ =~= quote_chars());
    let c = trim_matches(response, &quotes);
    let cs = c.as_str();
    let unknown = (owned("UNKNOWN"), owned(cs));
    match ActionType::from_str(cs) {
        ActionType::Done => Ok((owned("DONE"), owned(""))),
        ActionType::Click => match capture_click(cs) {
            Some(g) => {
                let mut payload = owned("{");
                let inner = remove_char(g.as_str(), '\\');
                payload.append(inner.as_str());
                payload.append("}");
                Ok((owned("CLICK"), payload))
            },
            None => Ok(unknown),
        },
        ActionType::Type => match capture_word(cs, "TYPE") {
            Some(g) => Ok((owned("TYPE"), trim_matches(g.as_str(), &quotes))),
            None => Ok(unknown),
        },
        ActionType::Search => match capture_word(cs, "SEARCH") {
            Some(g) => Ok((owned("SEARCH"), trim_matches(g.as_str(), &quotes))),
            None => Ok(unknown),
        },
        ActionType::Unknown => Ok(unknown),
    }
}

/// A reply that is `DONE`, with any quotes or backslashes around it,
/// parses to `DONE` and no detail.
pub proof fn lemma_done_parses(pre: Seq<char>, post: Seq<char>)
    requires
        forall|i: int| 0 <= i < pre.len() ==> quote_chars().contains(#[trigger] pre[i]),
        forall|i: int| 0 <= i < post.len() ==> quote_chars().contains(#[trigger] post[i]),
    ensures
        parsed(pre + done_word() + post) == (done_word(), Seq::<char>::empty()),
{
    let qs = quote_chars();
    let d = done_word();
    lemma_trim_end_suffix(pre + d, post, qs);
    assert(!qs.contains(d.last())) by {
        if qs.contains(d.last()) {
            let k = choose|k: int| 0 <= k < qs.len() && qs[k] == d.last();
        }
    }
    assert((pre + d).last() == d.last());
    assert(trim_end(pre + d, qs) == pre + d);
    lemma_trim_start_prefix(pre, d, qs);
    assert(!qs.contains(d[0])) by {
        if qs.contains(d[0]) {
            let k = choose|k: int| 0 <= k < qs.len() && qs[k] == d[0];
        }
    }
    assert(trim_start(d, qs) == d);
    assert(cleaned(pre + d + post) == d);
}

proof fn lemma_line_end_no_break(s: Seq<char>, g: int)
    requires
        0 <= g <= s.len(),
        forall|k: int| g <= k < s.len() ==> s[k] != '\n',
    ensures
        line_end(s, g) == s.len(),
    decreases s.len() - g,
{
    if g < s.len() {
        lemma_line_end_no_break(s, g + 1);
    }
}

/// A one-line reply `TYPE <text>` parses to `TYPE` and the text without
/// the quotes and backslashes around it, quotes inside it kept.
pub proof fn lemma_type_parses(text: Seq<char>)
    requires
        !text.contains('\n'),
        trim_end(text, quote_chars()).len() > 0,
    ensures
        parsed(type_word() + seq![' '] + text) == (type_word(), trim(text, quote_chars())),
{
    let qs = quote_chars();
    let p = type_word() + seq![' '];
    let te = trim_end(text, qs);
    lemma_trim_end_after(p, text, qs);
    lemma_trim_end_shape(text, qs);
    let c = p + te;
    assert(!qs.contains(c[0])) by {
        if qs.contains(c[0]) {
            let k = choose|k: int| 0 <= k < qs.len() && qs[k] == c[0];
        }
    }
    assert(trim_start(c, qs) == c);
    assert(cleaned(type_word() + seq![' '] + text) == c);
    assert(c.len() == 5 + te.len());
    assert(c != done_word());
    assert(c.subrange(0, 5)[1] != click_word()[1]);
    assert(!starts_with(c, click_word()));
    assert(c.subrange(0, 4) =~= type_word());
    assert(action_type_of(c) == ActionType::Type);
    assert forall|k: int| 5 <= k < c.len() implies c[k] != '\n' by {
        assert(c[k] == te[k - 5]);
        assert(te[k - 5] == text[k - 5]);
        if text[k - 5] == '\n' {
            assert(text.contains('\n'));
        }
    }
    assert(is_space(c[4]));
    assert(word_match_at(c, type_word(), 0));
    assert(first_word_match(c, type_word(), 0) == Some(0int));
    lemma_line_end_no_break(c, 5);
    assert(c.subrange(5, c.len() as int) =~= te);
    assert(word_capture(c, type_word()) == Some(te));
    assert(trim(te, qs) == trim(text, qs));
}

/// A percentage with its surrounding quotes and percent signs removed.
pub open spec fn percent_digits(s: Seq<char>) -> Seq<char> {
    trim(s, percent_chars())
}

/// Removes the quotes and percent signs around a percentage, leaving the
/// number to be read.
pub fn strip_percent(percent_str: &str) -> (r: String)
    ensures
        r@ == percent_digits(percent_str@),
{
    let set = vec!['"', '%'];
    assert(set@ =~= percent_chars());
    trim_matches(percent_str, &set)
}

/// The content of the last assistant text turn in `ms`, or nothing.
pub open spec fn last_assistant(ms: Seq<MessageView>) -> Seq<char>
    decreases ms.len(),
{
    if ms.len() == 0 {
        Seq::empty()
    } else {
        match ms.last() {
            MessageView::Text(Role::Assistant, content) => content,
            _ => last_assistant(ms.drop_last()),
        }
    }
}

/// The content of the most recent assistant text turn; empty when there is none.
pub fn get_last_assistant_message(messages: &mut Vec<Message>) -> (r: String)
    ensures
        *final(messages) == *old(messages),
        r@ == last_assistant(crate::types::views(old(messages)@)),
{
    let ghost vs = crate::types::views(messages@);
    let mut i: usize = messages.len();
    assert(vs.subrange(0, i as int) =~= vs);
    while i > 0
        invariant
            i <= messages@.len(),
            vs == crate::types::views(messages@),
            last_assistant(vs) == last_assistant(vs.subrange(0, i as int)),
        decreases i,
    {
        let ghost pre = vs.subrange(0, i as int);
        assert(pre.drop_last() =~= vs.subrange(0, i - 1));
        assert(pre.last() == messages@[i - 1].view());
        match &messages[i - 1] {
            Message::TextMessage(t) => {
                if t.role == Role::Assistant {
                    return t.content.clone();
                }
            },
            _ => {},
        }
        i = i - 1;
    }
    String::new()
}

} // verus!
