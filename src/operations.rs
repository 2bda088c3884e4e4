//! What each dispatched action does at the keyboard and mouse, as a plan
//! of input events, and the line that reports it.
use vstd::prelude::*;
use crate::parsers::{percent_digits, strip_percent};

verus! {

/// One step for the input layer.
#[derive(PartialEq, Eq, Structural, Clone, Copy, Debug)]
pub enum KeyEvent {
    /// Send the character as a typed sequence rather than a key click.
    Sequence(char),
    /// Press and release the key of the character.
    Click(char),
    /// Press the Return key.
    ReturnDown,
    /// Hold the Meta key.
    MetaDown,
    /// Release the Meta key.
    MetaUp,
    /// Wait a moment for the interface to appear.
    Pause,
}

/// How one character of typed text is sent: `/` as a sequence, so that the
/// input layer does not read it as a control token, any other as a click.
pub open spec fn type_event(c: char) -> KeyEvent {
    if c == '/' {
        KeyEvent::Sequence(c)
    } else {
        KeyEvent::Click(c)
    }
}

/// A click of the character's key.
pub open spec fn click_event(c: char) -> KeyEvent {
    KeyEvent::Click(c)
}

/// The events that type `text`, then press Return.
pub open spec fn typing_events(text: Seq<char>) -> Seq<KeyEvent> {
    text.map_values(|c: char| type_event(c)).push(KeyEvent::ReturnDown)
}

/// The shortcut that opens the search launcher, and the wait for it.
pub open spec fn search_shortcut() -> Seq<KeyEvent> {
    seq![KeyEvent::MetaDown, KeyEvent::Click(' '), KeyEvent::MetaUp, KeyEvent::Pause]
}

/// The events that search for `text`: open the launcher, click each
/// character's key, then press Return.
pub open spec fn search_events(text: Seq<char>) -> Seq<KeyEvent> {
    search_shortcut() + text.map_values(|c: char| click_event(c)).push(KeyEvent::ReturnDown)
}

/// The events that type `text` and press Return, even for empty text.
pub fn type_keys(text: &str) -> (r: Vec<KeyEvent>)
    ensures
        r@ == typing_events(text@),
{
    let n = text.unicode_len();
    let mut r: Vec<KeyEvent> = Vec::new();
    let mut i: usize = 0;
    while i < n
        invariant
            i <= n,
            n == text@.len(),
            r@ =~= text@.subrange(0, i as int).map_values(|c: char| type_event(c)),
        decreases n - i,
    {
        let c = text.get_char(i);
        if c == '/' {
            r.push(KeyEvent::Sequence(c));
        } else {
            r.push(KeyEvent::Click(c));
        }
        assert(text@.subrange(0, i + 1) =~= text@.subrange(0, i as int).push(c));
        i = i + 1;
    }
    assert(text@.subrange(0, n as int) =~= text@);
    r.push(KeyEvent::ReturnDown);
    r
}

/// A click of each character's key, in order.
fn click_keys(text: &str) -> (r: Vec<KeyEvent>)
    ensures
        r@ == text@.map_values(|c: char| click_event(c)),
{
    let n = text.unicode_len();
    let mut r: Vec<KeyEvent> = Vec::new();
    let mut i: usize = 0;
    while i < n
        invariant
            i <= n,
            n == text@.len(),
            r@ =~= text@.subrange(0, i as int).map_values(|c: char| click_event(c)),
        decreases n - i,
    {
        let c = text.get_char(i);
        r.push(KeyEvent::Click(c));
        assert(text@.subrange(0, i + 1) =~= text@.subrange(0, i as int).push(c));
        i = i + 1;
    }
    assert(text@.subrange(0, n as int) =~= text@);
    r
}

/// The events that open the search launcher, type `text` and press Return.
pub fn search_keys(text: &str) -> (r: Vec<KeyEvent>)
    ensures
        r@ == search_events(text@),
{
    let mut r: Vec<KeyEvent> = vec![
        KeyEvent::MetaDown,
        KeyEvent::Click(' '),
        KeyEvent::MetaUp,
        KeyEvent::Pause,
    ];
    assert(r@ =~= search_shortcut());
    let mut clicks = click_keys(text);
    r.append(&mut clicks);
    r.push(KeyEvent::ReturnDown);
    assert(r@ =~= search_events(text@));
    r
}

/// What typing reports: `Type: ` and the text.
pub open spec fn type_report(text: Seq<char>) -> Seq<char> {
    seq!['T', 'y', 'p', 'e', ':', ' '] + text
}

/// What a search reports: `Open program: ` and the text.
pub open spec fn search_report(text: Seq<char>) -> Seq<char> {
    seq!['O', 'p', 'e', 'n', ' ', 'p', 'r', 'o', 'g', 'r', 'a', 'm', ':', ' '] + text
}

/// The report line of typing `text`.
pub fn type_summary(text: &str) -> (r: String)
    ensures
        r@ == type_report(text@),
{
    proof {
        reveal_strlit("Type: ");
        assert("Type: "@ =~= seq!['T', 'y', 'p', 'e', ':', ' ']);
    }
    let mut r = String::from_str("Type: ");
    r.append(text);
    r
}

/// The report line of searching for `text`.
pub fn search_summary(text: &str) -> (r: String)
    ensures
        r@ == search_report(text@),
{
    proof {
        reveal_strlit("Open program: ");
        assert("Open program: "@ =~= seq![
            'O',
            'p',
            'e',
            'n',
            ' ',
            'p',
            'r',
            'o',
            'g',
            'r',
            'a',
            'm',
            ':',
            ' ',
        ]);
    }
    let mut r = String::from_str("Open program: ");
    r.append(text);
    r
}

/// The report of a click whose coordinates were missing.
pub const CLICK_FAILED: &'static str = "We failed to click";

/// The two coordinates of a click, when both are present and not empty.
pub open spec fn click_target_of(x: Option<Seq<char>>, y: Option<Seq<char>>) -> Option<
    (Seq<char>, Seq<char>),
> {
    match (x, y) {
        (Some(a), Some(b)) => if a.len() > 0 && b.len() > 0 {
            Some((percent_digits(a), percent_digits(b)))
        } else {
            None
        },
        _ => None,
    }
}

/// The numbers to read from a click's two coordinates, with their quotes and
/// percent signs removed; nothing when either is absent or empty, and then
/// no click is made.
pub fn click_target(x: Option<&str>, y: Option<&str>) -> (r: Option<(String, String)>)
    ensures
        match r {
            Some((a, b)) => click_target_of(
                match x {
                    Some(s) => Some(s@),
                    None => None,
                },
                match y {
                    Some(s) => Some(s@),
                    None => None,
                },
            ) == Some((a@, b@)),
            None => click_target_of(
                match x {
                    Some(s) => Some(s@),
                    None => None,
                },
                match y {
                    Some(s) => Some(s@),
                    None => None,
                },
            ) is None,
        },
{
    match (x, y) {
        (Some(a), Some(b)) => {
            if a.unicode_len() > 0 && b.unicode_len() > 0 {
                Some((strip_percent(a), strip_percent(b)))
            } else {
                None
            }
        },
        _ => None,
    }
}

} // verus!
