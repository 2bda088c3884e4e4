//! The reply grammar: which action a reply names, and what its pattern
//! captures. A pattern is searched for anywhere in the reply; the leftmost
//! place where it matches wins, and `.+` takes as much of the line as it can.
use vstd::prelude::*;

verus! {

/// Whether `p` stands in `s` at index `i`.
pub open spec fn occurs_at(s: Seq<char>, p: Seq<char>, i: int) -> bool {
    0 <= i && i + p.len() <= s.len() && s.subrange(i, i + p.len()) == p
}

/// Whether `s` begins with `p`.
pub open spec fn starts_with(s: Seq<char>, p: Seq<char>) -> bool {
    occurs_at(s, p, 0)
}

/// Unicode's White_Space property: what `\s` matches.
pub open spec fn is_space(c: char) -> bool {
    let u = c as u32;
    (0x9 <= u && u <= 0xd) || u == 0x20 || u == 0x85 || u == 0xa0 || u == 0x1680 || (0x2000 <= u
        && u <= 0x200a) || u == 0x2028 || u == 0x2029 || u == 0x202f || u == 0x205f || u == 0x3000
}

/// The index of the first line break at or after `g`, or the length of `s`.
pub open spec fn line_end(s: Seq<char>, g: int) -> int
    decreases s.len() - g,
{
    if g < 0 || g >= s.len() {
        s.len() as int
    } else if s[g] == '\n' {
        g
    } else {
        line_end(s, g + 1)
    }
}

/// `kw\s(.+)` matches at `i`: the keyword, one space character, and at
/// least one character that is not a line break.
pub open spec fn word_match_at(s: Seq<char>, kw: Seq<char>, i: int) -> bool {
    &&& occurs_at(s, kw, i)
    &&& i + kw.len() + 1 < s.len()
    &&& is_space(s[i + kw.len()])
    &&& s[i + kw.len() + 1] != '\n'
}

/// The leftmost index at or after `i` where `kw\s(.+)` matches.
pub open spec fn first_word_match(s: Seq<char>, kw: Seq<char>, i: int) -> Option<int>
    decreases s.len() - i,
{
    if i < 0 || i >= s.len() {
        None
    } else if word_match_at(s, kw, i) {
        Some(i)
    } else {
        first_word_match(s, kw, i + 1)
    }
}

/// What the group of `kw\s(.+)` captures in `s`, if the pattern matches.
pub open spec fn word_capture(s: Seq<char>, kw: Seq<char>) -> Option<Seq<char>> {
    match first_word_match(s, kw, 0) {
        Some(i) => {
            let g = i + kw.len() + 1;
            Some(s.subrange(g, line_end(s, g)))
        },
        None => None,
    }
}

/// The text that opens a click reply: `CLICK {{`.
pub open spec fn click_opening() -> Seq<char> {
    seq!['C', 'L', 'I', 'C', 'K', ' ', '{', '{']
}

/// The largest index in `(g, j]` where `}}` begins.
pub open spec fn last_close(s: Seq<char>, g: int, j: int) -> Option<int>
    decreases j - g,
{
    if j <= g {
        None
    } else if s[j] == '}' && s[j + 1] == '}' {
        Some(j)
    } else {
        last_close(s, g, j - 1)
    }
}

/// Where the closing `}}` of a click payload that opens at `i` stands: the
/// last one on the line, after at least one character of payload.
pub open spec fn click_close(s: Seq<char>, i: int) -> Option<int> {
    let g = i + click_opening().len();
    last_close(s, g, line_end(s, g) - 2)
}

/// `CLICK \{\{(.+)\}\}` matches at `i`.
pub open spec fn click_match_at(s: Seq<char>, i: int) -> bool {
    occurs_at(s, click_opening(), i) && click_close(s, i) is Some
}

/// The leftmost index at or after `i` where the click pattern matches.
pub open spec fn first_click_match(s: Seq<char>, i: int) -> Option<int>
    decreases s.len() - i,
{
    if i < 0 || i >= s.len() {
        None
    } else if click_match_at(s, i) {
        Some(i)
    } else {
        first_click_match(s, i + 1)
    }
}

/// What the group of `CLICK \{\{(.+)\}\}` captures in `s`, if it matches.
pub open spec fn click_capture(s: Seq<char>) -> Option<Seq<char>> {
    match first_click_match(s, 0) {
        Some(i) => Some(s.subrange(i + click_opening().len(), click_close(s, i)->0)),
        None => None,
    }
}

/// Whether `p` stands in `s` at index `i`; `n` is the length of `s`.
pub fn occurs_at_exec(s: &str, n: usize, p: &str, i: usize) -> (r: bool)
    requires
        n == s@.len(),
    ensures
        r == occurs_at(s@, p@, i as int),
{
    let m = p.unicode_len();
    if i > n || m > n - i {
        return false;
    }
    let mut k: usize = 0;
    while k < m
        invariant
            k <= m,
            m == p@.len(),
            n == s@.len(),
            i + m <= n,
            forall|t: int| 0 <= t < k ==> s@[i + t] == p@[t],
        decreases m - k,
    {
        if s.get_char(i + k) != p.get_char(k) {
            assert(s@.subrange(i as int, i + m)[k as int] != p@[k as int]);
            return false;
        }
        k = k + 1;
    }
    assert(s@.subrange(i as int, i + m) =~= p@);
    true
}

/// Whether `c` is a space character in Unicode's sense.
pub fn is_space_char(c: char) -> (r: bool)
    ensures
        r == is_space(c),
{
    let u = c as u32;
    (0x9 <= u && u <= 0xd) || u == 0x20 || u == 0x85 || u == 0xa0 || u == 0x1680 || (0x2000 <= u
        && u <= 0x200a) || u == 0x2028 || u == 0x2029 || u == 0x202f || u == 0x205f || u == 0x3000
}

/// The index of the first line break at or after `g`.
pub fn line_end_exec(s: &str, n: usize, g: usize) -> (r: usize)
    requires
        n == s@.len(),
        g <= n,
    ensures
        r as int == line_end(s@, g as int),
        g <= r <= n,
{
    let mut k: usize = g;
    while k < n && s.get_char(k) != '\n'
        invariant
            g <= k <= n,
            n == s@.len(),
            line_end(s@, g as int) == line_end(s@, k as int),
        decreases n - k,
    {
        k = k + 1;
    }
    k
}

/// What the group of `kw\s(.+)` captures in `s`, if the pattern matches.
pub fn capture_word(s: &str, kw: &str) -> (r: Option<String>)
    ensures
        match r {
            Some(t) => word_capture(s@, kw@) == Some(t@),
            None => word_capture(s@, kw@) is None,
        },
{
    let n = s.unicode_len();
    let m = kw.unicode_len();
    let mut i: usize = 0;
    while i < n
        invariant
            i <= n,
            n == s@.len(),
            m == kw@.len(),
            first_word_match(s@, kw@, 0) == first_word_match(s@, kw@, i as int),
        decreases n - i,
    {
        if occurs_at_exec(s, n, kw, i) && i + m < n && n - (i + m) >= 2 {
            if is_space_char(s.get_char(i + m)) && s.get_char(i + m + 1) != '\n' {
                let g = i + m + 1;
                let e = line_end_exec(s, n, g);
                return Some(String::from_str(s.substring_char(g, e)));
            }
        }
        i = i + 1;
    }
    None
}

/// The largest index in `(g, line_end(g) - 2]` where `}}` begins.
fn last_close_exec(s: &str, n: usize, g: usize) -> (r: Option<usize>)
    requires
        n == s@.len(),
        g <= n,
    ensures
        match r {
            Some(j) => last_close(s@, g as int, line_end(s@, g as int) - 2) == Some(j as int),
            None => last_close(s@, g as int, line_end(s@, g as int) - 2) is None,
        },
        r matches Some(j) ==> g < j && j + 2 <= n,
{
    let e = line_end_exec(s, n, g);
    if e < 2 {
        return None;
    }
    let mut j: usize = e - 2;
    while j > g
        invariant
            g <= n,
            j + 2 <= e <= n,
            n == s@.len(),
            e as int == line_end(s@, g as int),
            last_close(s@, g as int, e - 2) == last_close(s@, g as int, j as int),
        decreases j,
    {
        if s.get_char(j) == '}' && s.get_char(j + 1) == '}' {
            return Some(j);
        }
        j = j - 1;
    }
    None
}

/// What the group of `CLICK \{\{(.+)\}\}` captures in `s`, if it matches.
pub fn capture_click(s: &str) -> (r: Option<String>)
    ensures
        match r {
            Some(t) => click_capture(s@) == Some(t@),
            None => click_capture(s@) is None,
        },
{
    let opening = "CLICK {{";
    proof {
        reveal_strlit("CLICK {{");
        assert(opening@ =~= click_opening());
    }
    let n = s.unicode_len();
    let mut i: usize = 0;
    while i < n
        invariant
            i <= n,
            n == s@.len(),
            opening@ == click_opening(),
            first_click_match(s@, 0) == first_click_match(s@, i as int),
        decreases n - i,
    {
        if occurs_at_exec(s, n, opening, i) {
            let g = i + 8;
            match last_close_exec(s, n, g) {
                Some(j) => {
                    return Some(String::from_str(s.substring_char(g, j)));
                },
                None => {},
            }
        }
        i = i + 1;
    }
    None
}

} // verus!
