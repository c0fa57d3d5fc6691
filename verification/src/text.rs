//! Small operations on text that the other modules share.

use vstd::prelude::*;
use vstd::string::*;

verus! {

/// Whether two string slices hold the same characters.
pub(crate) fn str_eq(a: &str, b: &str) -> (same: bool)
    ensures
        same == (a@ == b@),
{
    String::from_str(a) == String::from_str(b)
}

/// Whether a character is whitespace: whether it has the Unicode property
/// White_Space, as `char::is_whitespace` answers it.
pub open spec fn is_whitespace(c: char) -> bool {
    let code = c as u32;
    ||| 0x9 <= code <= 0xD
    ||| code == 0x20
    ||| code == 0x85
    ||| code == 0xA0
    ||| code == 0x1680
    ||| 0x2000 <= code <= 0x200A
    ||| code == 0x2028
    ||| code == 0x2029
    ||| code == 0x202F
    ||| code == 0x205F
    ||| code == 0x3000
}

/// Whether a character is whitespace.
pub fn char_is_whitespace(c: char) -> (white: bool)
    ensures
        white == is_whitespace(c),
{
    let code = c as u32;
    (0x9 <= code && code <= 0xD) || code == 0x20 || code == 0x85 || code == 0xA0 || code == 0x1680
        || (0x2000 <= code && code <= 0x200A) || code == 0x2028 || code == 0x2029 || code == 0x202F
        || code == 0x205F || code == 0x3000
}

/// A text without the whitespace it starts with.
pub open spec fn trim_start(s: Seq<char>) -> Seq<char>
    decreases s.len(),
{
    if s.len() > 0 && is_whitespace(s[0]) {
        trim_start(s.drop_first())
    } else {
        s
    }
}

/// A text without the whitespace it ends with.
pub open spec fn trim_end(s: Seq<char>) -> Seq<char>
    decreases s.len(),
{
    if s.len() > 0 && is_whitespace(s.last()) {
        trim_end(s.drop_last())
    } else {
        s
    }
}

/// A text without the whitespace at its two ends.
pub open spec fn trimmed(s: Seq<char>) -> Seq<char> {
    trim_end(trim_start(s))
}

proof fn lemma_trim_start_skips(s: Seq<char>, n: int)
    requires
        0 <= n <= s.len(),
        forall|i: int| 0 <= i < n ==> is_whitespace(#[trigger] s[i]),
    ensures
        trim_start(s) == trim_start(s.skip(n)),
    decreases n,
{
    if n == 0 {
        assert(s.skip(0) =~= s);
    } else {
        let rest = s.drop_first();
        lemma_trim_start_skips(rest, n - 1);
        assert(rest.skip(n - 1) =~= s.skip(n));
    }
}

proof fn lemma_trim_end_takes(s: Seq<char>, n: int)
    requires
        0 <= n <= s.len(),
        forall|i: int| n <= i < s.len() ==> is_whitespace(#[trigger] s[i]),
    ensures
        trim_end(s) == trim_end(s.take(n)),
    decreases s.len() - n,
{
    if n == s.len() {
        assert(s.take(n) =~= s);
    } else {
        let rest = s.drop_last();
        lemma_trim_end_takes(rest, n);
        assert(rest.take(n) =~= s.take(n));
    }
}

/// Removes the whitespace at the two ends of a text.
pub fn trim(s: &str) -> (inner: &str)
    ensures
        inner@ == trimmed(s@),
{
    let n = s.unicode_len();
    let mut start: usize = 0;
    while start < n && char_is_whitespace(s.get_char(start))
        invariant
            start <= n,
            n == s@.len(),
            forall|i: int| 0 <= i < start ==> is_whitespace(#[trigger] s@[i]),
        decreases n - start,
    {
        start += 1;
    }
    let mut end: usize = n;
    while end > start && char_is_whitespace(s.get_char(end - 1))
        invariant
            start <= end <= n,
            n == s@.len(),
            forall|i: int| end <= i < n ==> is_whitespace(#[trigger] s@[i]),
        decreases end - start,
    {
        end -= 1;
    }
    proof {
        let lead = s@.skip(start as int);
        lemma_trim_start_skips(s@, start as int);
        lemma_trim_end_takes(lead, end - start);
    }
    s.substring_char(start, end)
}

/// The place of the first `c` in `s`, or the length of `s` if it holds none.
pub open spec fn first_index_of(s: Seq<char>, c: char) -> int
    decreases s.len(),
{
    if s.len() == 0 || s[0] == c {
        0
    } else {
        1 + first_index_of(s.drop_first(), c)
    }
}

/// What stands before the first `c` in `s`: all of `s` if it holds none.
pub open spec fn head_before(s: Seq<char>, c: char) -> Seq<char> {
    s.take(first_index_of(s, c))
}

/// What stands after the first `c` in `s`, if it holds one.
pub open spec fn tail_after(s: Seq<char>, c: char) -> Option<Seq<char>> {
    if first_index_of(s, c) < s.len() {
        Some(s.skip(first_index_of(s, c) + 1))
    } else {
        None
    }
}

proof fn lemma_first_index(s: Seq<char>, c: char, n: int)
    requires
        0 <= n <= s.len(),
        forall|i: int| 0 <= i < n ==> #[trigger] s[i] != c,
        n == s.len() || s[n] == c,
    ensures
        first_index_of(s, c) == n,
    decreases n,
{
    if n > 0 {
        let rest = s.drop_first();
        lemma_first_index(rest, c, n - 1);
    }
}

/// Splits a text at its first `separator`: what stands before it, and what
/// stands after it if the text holds one.
pub fn split_first<'a>(s: &'a str, separator: char) -> (parts: (&'a str, Option<&'a str>))
    ensures
        parts.0@ == head_before(s@, separator),
        parts.1.deep_view() == tail_after(s@, separator),
{
    let n = s.unicode_len();
    let mut at: usize = 0;
    while at < n && s.get_char(at) != separator
        invariant
            at <= n,
            n == s@.len(),
            forall|i: int| 0 <= i < at ==> #[trigger] s@[i] != separator,
        decreases n - at,
    {
        at += 1;
    }
    proof {
        lemma_first_index(s@, separator, at as int);
    }
    let head = s.substring_char(0, at);
    if at < n {
        let tail = s.substring_char(at + 1, n);
        (head, Some(tail))
    } else {
        (head, None)
    }
}

/// The character of a decimal digit.
pub open spec fn digit_of(d: nat) -> char {
    if d == 0 {
        '0'
    } else if d == 1 {
        '1'
    } else if d == 2 {
        '2'
    } else if d == 3 {
        '3'
    } else if d == 4 {
        '4'
    } else if d == 5 {
        '5'
    } else if d == 6 {
        '6'
    } else if d == 7 {
        '7'
    } else if d == 8 {
        '8'
    } else {
        '9'
    }
}

/// A number written in decimal digits, without leading zeros.
pub open spec fn decimal_of(n: nat) -> Seq<char>
    decreases n,
{
    if n < 10 {
        seq![digit_of(n)]
    } else {
        decimal_of(n / 10).push(digit_of(n % 10))
    }
}

/// The text of one decimal digit.
fn digit(d: u128) -> (text: &'static str)
    requires
        d < 10,
    ensures
        text@ == seq![digit_of(d as nat)],
{
    proof {
        reveal_strlit("0");
        reveal_strlit("1");
        reveal_strlit("2");
        reveal_strlit("3");
        reveal_strlit("4");
        reveal_strlit("5");
        reveal_strlit("6");
        reveal_strlit("7");
        reveal_strlit("8");
        reveal_strlit("9");
    }
    let text = if d == 0 {
        "0"
    } else if d == 1 {
        "1"
    } else if d == 2 {
        "2"
    } else if d == 3 {
        "3"
    } else if d == 4 {
        "4"
    } else if d == 5 {
        "5"
    } else if d == 6 {
        "6"
    } else if d == 7 {
        "7"
    } else if d == 8 {
        "8"
    } else {
        "9"
    };
    assert(text@ =~= seq![digit_of(d as nat)]);
    text
}

/// Writes a number in decimal digits.
pub fn decimal(n: u128) -> (text: String)
    ensures
        text@ == decimal_of(n as nat),
{
    let mut text = String::from_str(digit(n % 10));
    let mut rest = n / 10;
    while rest > 0
        invariant
            decimal_of(n as nat) == if rest > 0 {
                decimal_of(rest as nat) + text@
            } else {
                text@
            },
        decreases rest,
    {
        let ghost before = text@;
        text = String::from_str(digit(rest % 10)).concat(text.as_str());
        proof {
            if rest >= 10 {
                assert(decimal_of(rest as nat) + before =~= decimal_of((rest / 10) as nat) + text@);
            } else {
                assert(decimal_of(rest as nat) + before =~= text@);
            }
        }
        rest = rest / 10;
    }
    text
}

/// A line break at the end of a text is trimmed away with the rest of the
/// whitespace there: trimming the text with the line break gives what
/// trimming the text alone gives.
pub proof fn lemma_trailing_line_break_is_trimmed(s: Seq<char>)
    ensures
        trimmed(s.push('\n')) == trimmed(s),
{
    lemma_trim_start_of_push(s, '\n');
    let t = trim_start(s);
    if t.len() == 0 {
        assert(trim_start(s.push('\n')).len() == 0);
    } else {
        assert(t.push('\n').drop_last() =~= t);
    }
}

/// Trimming the start of a text that is followed by one more whitespace
/// character: nothing is left if the text is all whitespace; else the
/// character follows what is left of the text.
proof fn lemma_trim_start_of_push(s: Seq<char>, c: char)
    requires
        is_whitespace(c),
    ensures
        trim_start(s.push(c)) == if trim_start(s).len() == 0 {
            Seq::<char>::empty()
        } else {
            trim_start(s).push(c)
        },
    decreases s.len(),
{
    let pushed = s.push(c);
    if s.len() == 0 {
        assert(pushed[0] == c);
        assert(pushed.drop_first() =~= Seq::<char>::empty());
        assert(trim_start(pushed.drop_first()) == Seq::<char>::empty());
    } else {
        assert(pushed[0] == s[0]);
        if is_whitespace(s[0]) {
            assert(pushed.drop_first() =~= s.drop_first().push(c));
            lemma_trim_start_of_push(s.drop_first(), c);
        }
    }
}

} // verus!
