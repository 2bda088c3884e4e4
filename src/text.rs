//! Character-level helpers on strings, each with its mathematical model.
use vstd::prelude::*;

verus! {

/// `s` with every leading character that belongs to `set` removed.
pub open spec fn trim_start(s: Seq<char>, set: Seq<char>) -> Seq<char>
    decreases s.len(),
{
    if s.len() > 0 && set.contains(s[0]) {
        trim_start(s.drop_first(), set)
    } else {
        s
    }
}

/// `s` with every trailing character that belongs to `set` removed.
pub open spec fn trim_end(s: Seq<char>, set: Seq<char>) -> Seq<char>
    decreases s.len(),
{
    if s.len() > 0 && set.contains(s.last()) {
        trim_end(s.drop_last(), set)
    } else {
        s
    }
}

/// `s` with the characters of `set` removed from both ends.
pub open spec fn trim(s: Seq<char>, set: Seq<char>) -> Seq<char> {
    trim_start(trim_end(s, set), set)
}

/// `s` with every occurrence of `c` removed.
pub open spec fn without(s: Seq<char>, c: char) -> Seq<char>
    decreases s.len(),
{
    if s.len() == 0 {
        s
    } else if s.last() == c {
        without(s.drop_last(), c)
    } else {
        without(s.drop_last(), c).push(s.last())
    }
}

proof fn lemma_trim_start_step(s: Seq<char>, set: Seq<char>, i: int)
    requires
        0 <= i < s.len(),
        set.contains(s[i]),
    ensures
        trim_start(s.subrange(i, s.len() as int), set) == trim_start(
            s.subrange(i + 1, s.len() as int),
            set,
        ),
{
    assert(s.subrange(i, s.len() as int).drop_first() =~= s.subrange(i + 1, s.len() as int));
}

proof fn lemma_trim_end_step(s: Seq<char>, set: Seq<char>, j: int)
    requires
        0 < j <= s.len(),
        set.contains(s[j - 1]),
    ensures
        trim_end(s.subrange(0, j), set) == trim_end(s.subrange(0, j - 1), set),
{
    assert(s.subrange(0, j).drop_last() =~= s.subrange(0, j - 1));
}

/// Trailing characters of `set` after `x` are all removed.
pub proof fn lemma_trim_end_suffix(x: Seq<char>, post: Seq<char>, set: Seq<char>)
    requires
        forall|i: int| 0 <= i < post.len() ==> set.contains(#[trigger] post[i]),
    ensures
        trim_end(x + post, set) == trim_end(x, set),
    decreases post.len(),
{
    if post.len() == 0 {
        assert(x + post =~= x);
    } else {
        assert(set.contains(post[post.len() - 1]));
        assert((x + post).drop_last() =~= x + post.drop_last());
        lemma_trim_end_suffix(x, post.drop_last(), set);
    }
}

/// Leading characters of `set` before `x` are all removed.
pub proof fn lemma_trim_start_prefix(pre: Seq<char>, x: Seq<char>, set: Seq<char>)
    requires
        forall|i: int| 0 <= i < pre.len() ==> set.contains(#[trigger] pre[i]),
    ensures
        trim_start(pre + x, set) == trim_start(x, set),
    decreases pre.len(),
{
    if pre.len() == 0 {
        assert(pre + x =~= x);
    } else {
        assert(set.contains(pre[0]));
        assert((pre + x).drop_first() =~= pre.drop_first() + x);
        lemma_trim_start_prefix(pre.drop_first(), x, set);
    }
}

/// Trimming the end of `p + x` leaves `p` alone when some of `x` stays.
pub proof fn lemma_trim_end_after(p: Seq<char>, x: Seq<char>, set: Seq<char>)
    requires
        trim_end(x, set).len() > 0,
    ensures
        trim_end(p + x, set) == p + trim_end(x, set),
    decreases x.len(),
{
    if x.len() > 0 && set.contains(x.last()) {
        assert((p + x).drop_last() =~= p + x.drop_last());
        lemma_trim_end_after(p, x.drop_last(), set);
    } else {
        if x.len() == 0 {
            assert(p + x =~= p);
        }
    }
}

/// What trimming the end leaves is a prefix, and it does not end in `set`.
pub proof fn lemma_trim_end_shape(x: Seq<char>, set: Seq<char>)
    ensures
        trim_end(x, set).len() <= x.len(),
        trim_end(x, set) == x.subrange(0, trim_end(x, set).len() as int),
        trim_end(x, set).len() > 0 ==> !set.contains(trim_end(x, set).last()),
        trim_end(trim_end(x, set), set) == trim_end(x, set),
    decreases x.len(),
{
    if x.len() > 0 && set.contains(x.last()) {
        lemma_trim_end_shape(x.drop_last(), set);
        let t = trim_end(x.drop_last(), set);
        assert(x.drop_last().subrange(0, t.len() as int) =~= x.subrange(0, t.len() as int));
    } else {
        assert(x.subrange(0, x.len() as int) =~= x);
    }
}

/// Whether `c` is one of `set`.
pub fn contains_char(set: &Vec<char>, c: char) -> (r: bool)
    ensures
        r == set@.contains(c),
{
    let mut i: usize = 0;
    while i < set.len()
        invariant
            i <= set@.len(),
            forall|k: int| 0 <= k < i ==> set@[k] != c,
        decreases set@.len() - i,
    {
        if set[i] == c {
            return true;
        }
        i = i + 1;
    }
    false
}

/// Removes the characters of `set` from both ends of `s`.
pub fn trim_matches(s: &str, set: &Vec<char>) -> (r: String)
    ensures
        r@ == trim(s@, set@),
{
    let n = s.unicode_len();
    let mut b: usize = n;
    assert(s@.subrange(0, n as int) =~= s@);
    while b > 0 && contains_char(set, s.get_char(b - 1))
        invariant
            b <= n,
            n == s@.len(),
            trim_end(s@, set@) == trim_end(s@.subrange(0, b as int), set@),
        decreases b,
    {
        proof {
            lemma_trim_end_step(s@, set@, b as int);
        }
        b = b - 1;
    }
    let ghost back = s@.subrange(0, b as int);
    assert(trim_end(s@, set@) == back) by {
        assert(s@.subrange(0, n as int) =~= s@);
    }
    let mut a: usize = 0;
    while a < b && contains_char(set, s.get_char(a))
        invariant
            a <= b <= n,
            n == s@.len(),
            back == s@.subrange(0, b as int),
            trim_start(back, set@) == trim_start(s@.subrange(a as int, b as int), set@),
        decreases b - a,
    {
        proof {
            assert(back[a as int] == s@[a as int]);
            lemma_trim_start_step(back, set@, a as int);
            assert(back.subrange(a as int, back.len() as int) =~= s@.subrange(a as int, b as int));
            assert(back.subrange(a + 1, back.len() as int) =~= s@.subrange(a + 1, b as int));
        }
        a = a + 1;
    }
    assert(back.subrange(0, b as int) =~= back);
    let r = String::from_str(s.substring_char(a, b));
    r
}

/// Removes every occurrence of `c` from `s`.
pub fn remove_char(s: &str, c: char) -> (r: String)
    ensures
        r@ == without(s@, c),
{
    let n = s.unicode_len();
    let mut r = String::new();
    let mut i: usize = 0;
    while i < n
        invariant
            i <= n,
            n == s@.len(),
            r@ == without(s@.subrange(0, i as int), c),
        decreases n - i,
    {
        let ghost before = s@.subrange(0, i as int);
        assert(s@.subrange(0, i + 1).drop_last() =~= before);
        if s.get_char(i) != c {
            let piece = s.substring_char(i, i + 1);
            r.append(piece);
            assert(piece@ =~= seq![s@[i as int]]);
            assert(r@ =~= without(before, c).push(s@[i as int]));
        }
        i = i + 1;
    }
    assert(s@.subrange(0, n as int) =~= s@);
    r
}

/// The decimal digits, in order.
pub open spec fn digits() -> Seq<char> {
    seq!['0', '1', '2', '3', '4', '5', '6', '7', '8', '9']
}

/// The decimal numeral of `n`, without leading zeros.
pub open spec fn decimal(n: nat) -> Seq<char>
    decreases n,
{
    if n < 10 {
        seq![digits()[n as int]]
    } else {
        decimal(n / 10).push(digits()[(n % 10) as int])
    }
}

/// The decimal numeral of `n`.
pub fn decimal_string(n: u64) -> (r: String)
    ensures
        r@ == decimal(n as nat),
    decreases n,
{
    let ds = "0123456789";
    proof {
        reveal_strlit("0123456789");
        assert(ds@ =~= digits());
    }
    let d = (n % 10) as usize;
    let digit = ds.substring_char(d, d + 1);
    assert(digit@ =~= seq![digits()[d as int]]);
    if n < 10 {
        String::from_str(digit)
    } else {
        let mut r = decimal_string(n / 10);
        r.append(digit);
        r
    }
}

} // verus!
