//! Text as sequences of characters: white space, trimming, lines and
//! decimal numerals.
//!
//! What a text is said to be is said of its characters, a `Seq<char>`: the
//! view of `str` and of `String`. The executable functions walk the
//! characters of their arguments and are proved to compute just that.

use vstd::prelude::*;

verus! {

/// Whether `c` has the Unicode property White_Space.
pub open spec fn is_whitespace(c: char) -> bool {
    let n = c as u32;
    (0x09 <= n && n <= 0x0D) || n == 0x20 || n == 0x85 || n == 0xA0 || n == 0x1680 || (0x2000 <= n
        && n <= 0x200A) || n == 0x2028 || n == 0x2029 || n == 0x202F || n == 0x205F || n == 0x3000
}

/// Whether `s` holds nothing but white space. The empty text is blank.
pub open spec fn is_blank(s: Seq<char>) -> bool {
    forall|i: int| 0 <= i < s.len() ==> is_whitespace(#[trigger] s[i])
}

/// `s` without its leading white space.
pub open spec fn trim_start(s: Seq<char>) -> Seq<char>
    decreases s.len(),
{
    if s.len() > 0 && is_whitespace(s.first()) {
        trim_start(s.drop_first())
    } else {
        s
    }
}

/// `s` without its trailing white space.
pub open spec fn trim_end(s: Seq<char>) -> Seq<char>
    decreases s.len(),
{
    if s.len() > 0 && is_whitespace(s.last()) {
        trim_end(s.drop_last())
    } else {
        s
    }
}

/// `s` without its leading and trailing white space.
pub open spec fn trimmed(s: Seq<char>) -> Seq<char> {
    trim_end(trim_start(s))
}

/// Whether the characters of `s` from `a` up to `b` are one of its lines: a
/// longest stretch without a line feed. The empty stretch behind the last
/// line feed is no line, so the empty text has none.
pub open spec fn is_line(s: Seq<char>, a: int, b: int) -> bool {
    &&& 0 <= a <= b <= s.len()
    &&& a < s.len()
    &&& (a == 0 || s[a - 1] == '\n')
    &&& (b == s.len() || s[b] == '\n')
    &&& forall|i: int| a <= i < b ==> s[i] != '\n'
}

/// Whether some line of `s`, trimmed, is `wanted`. A carriage return before
/// a line feed is white space and falls to the trimming.
pub open spec fn some_line_trims_to(s: Seq<char>, wanted: Seq<char>) -> bool {
    exists|a: int, b: int| #[trigger] is_line(s, a, b) && trimmed(s.subrange(a, b)) == wanted
}

/// The character of the decimal digit `d`.
pub open spec fn digit(d: nat) -> char {
    if d == 0 {
        '0'
    } else if d == 1 {
        '1'
    } else if d == 2 {
        '2'
    } else if d == 3 {
        '3'
    } else if d == 4 {
        '4'
    } else if d == 5 {
        '5'
    } else if d == 6 {
        '6'
    } else if d == 7 {
        '7'
    } else if d == 8 {
        '8'
    } else {
        '9'
    }
}

/// The decimal numeral of `n`, without leading zeros.
pub open spec fn decimal(n: nat) -> Seq<char>
    decreases n,
{
    if n < 10 {
        seq![digit(n)]
    } else {
        decimal(n / 10).push(digit(n % 10))
    }
}

/// Leading white space is exactly what `trim_start` removes: where all of
/// `s` before `lo` is white space and `s[lo]`, if there is one, is not, the
/// rest from `lo` on remains.
pub proof fn lemma_trim_start_at(s: Seq<char>, lo: int)
    requires
        0 <= lo <= s.len(),
        forall|i: int| 0 <= i < lo ==> is_whitespace(#[trigger] s[i]),
        lo == s.len() || !is_whitespace(s[lo]),
    ensures
        trim_start(s) == s.skip(lo),
    decreases lo,
{
    if lo == 0 {
        assert(s.skip(0) =~= s);
    } else {
        let rest = s.drop_first();
        assert forall|i: int| 0 <= i < lo - 1 implies is_whitespace(#[trigger] rest[i]) by {
            assert(rest[i] == s[i + 1]);
        }
        lemma_trim_start_at(rest, lo - 1);
        assert(rest.skip(lo - 1) =~= s.skip(lo));
    }
}

/// Trailing white space is exactly what `trim_end` removes: where all of `s`
/// from `hi` on is white space and `s[hi - 1]`, if there is one, is not, the
/// part before `hi` remains.
pub proof fn lemma_trim_end_at(s: Seq<char>, hi: int)
    requires
        0 <= hi <= s.len(),
        forall|i: int| hi <= i < s.len() ==> is_whitespace(#[trigger] s[i]),
        hi == 0 || !is_whitespace(s[hi - 1]),
    ensures
        trim_end(s) == s.take(hi),
    decreases s.len() - hi,
{
    if hi == s.len() {
        assert(s.take(hi) =~= s);
    } else {
        let rest = s.drop_last();
        lemma_trim_end_at(rest, hi);
        assert(rest.take(hi) =~= s.take(hi));
    }
}

/// Trimming cuts `s` down to the stretch between its first and its last
/// character that is not white space.
pub proof fn lemma_trimmed_at(s: Seq<char>, lo: int, hi: int)
    requires
        0 <= lo <= hi <= s.len(),
        forall|i: int| 0 <= i < lo ==> is_whitespace(#[trigger] s[i]),
        forall|i: int| hi <= i < s.len() ==> is_whitespace(#[trigger] s[i]),
        lo == hi || (!is_whitespace(s[lo]) && !is_whitespace(s[hi - 1])),
    ensures
        trimmed(s) == s.subrange(lo, hi),
{
    if lo == hi {
        // All of `s` is white space: cut at its end, and nothing is left.
        lemma_trim_start_at(s, s.len() as int);
        let none = s.skip(s.len() as int);
        assert(none.len() == 0);
        assert(trim_end(none) == none);
        assert(none =~= s.subrange(lo, hi));
    } else {
        lemma_trim_start_at(s, lo);
        let rest = s.skip(lo);
        assert forall|i: int| hi - lo <= i < rest.len() implies is_whitespace(
            #[trigger] rest[i],
        ) by {
            assert(rest[i] == s[i + lo]);
        }
        assert(rest[hi - lo - 1] == s[hi - 1]);
        lemma_trim_end_at(rest, hi - lo);
        assert(rest.take(hi - lo) =~= s.subrange(lo, hi));
    }
}

/// A text is blank exactly when trimming leaves nothing of it.
pub proof fn lemma_blank_iff_trimmed_empty(s: Seq<char>)
    ensures
        is_blank(s) <==> trimmed(s).len() == 0,
{
    if is_blank(s) {
        lemma_trimmed_at(s, s.len() as int, s.len() as int);
    } else {
        let lo = choose|i: int| 0 <= i < s.len() && !is_whitespace(#[trigger] s[i]);
        lemma_trimmed_keeps(s, lo);
    }
}

/// A character of `s` that is not white space survives trimming, so the
/// trimmed text is not empty.
proof fn lemma_trimmed_keeps(s: Seq<char>, at: int)
    requires
        0 <= at < s.len(),
        !is_whitespace(s[at]),
    ensures
        trimmed(s).len() > 0,
{
    let lo = first_solid(s, at);
    let hi = last_solid(s, at);
    lemma_trimmed_at(s, lo, hi + 1);
}

/// The place of the first character of `s` that is not white space, given
/// that the one at `at` is not.
proof fn first_solid(s: Seq<char>, at: int) -> (lo: int)
    requires
        0 <= at < s.len(),
        !is_whitespace(s[at]),
    ensures
        0 <= lo <= at,
        !is_whitespace(s[lo]),
        forall|i: int| 0 <= i < lo ==> is_whitespace(#[trigger] s[i]),
    decreases at,
{
    if exists|i: int| 0 <= i < at && !is_whitespace(#[trigger] s[i]) {
        let earlier = choose|i: int| 0 <= i < at && !is_whitespace(#[trigger] s[i]);
        first_solid(s, earlier)
    } else {
        at
    }
}

/// The place of the last character of `s` that is not white space, given
/// that the one at `at` is not.
proof fn last_solid(s: Seq<char>, at: int) -> (hi: int)
    requires
        0 <= at < s.len(),
        !is_whitespace(s[at]),
    ensures
        at <= hi < s.len(),
        !is_whitespace(s[hi]),
        forall|i: int| hi < i < s.len() ==> is_whitespace(#[trigger] s[i]),
    decreases s.len() - at,
{
    if exists|i: int| at < i < s.len() && !is_whitespace(#[trigger] s[i]) {
        let later = choose|i: int| at < i < s.len() && !is_whitespace(#[trigger] s[i]);
        last_solid(s, later)
    } else {
        at
    }
}

/// Whether `c` is white space.
pub fn is_space(c: char) -> (b: bool)
    ensures
        b == is_whitespace(c),
{
    let n: u32 = c as u32;
    (0x09 <= n && n <= 0x0D) || n == 0x20 || n == 0x85 || n == 0xA0 || n == 0x1680 || (0x2000 <= n
        && n <= 0x200A) || n == 0x2028 || n == 0x2029 || n == 0x202F || n == 0x205F || n == 0x3000
}

/// The characters of `s`, in order.
pub fn to_chars(s: &str) -> (chars: Vec<char>)
    ensures
        chars@ == s@,
{
    let mut chars: Vec<char> = Vec::new();
    for c in it: s.chars()
        invariant
            chars@ == it.seq().take(it.index() as int),
            it.seq() == s@,
    {
        chars.push(c);
    }
    chars
}

/// The bounds of the stretch `start..end` of `chars` once trimmed.
fn trim_bounds(chars: &Vec<char>, start: usize, end: usize) -> (bounds: (usize, usize))
    requires
        start <= end <= chars.len(),
    ensures
        start <= bounds.0 <= bounds.1 <= end,
        chars@.subrange(bounds.0 as int, bounds.1 as int) == trimmed(
            chars@.subrange(start as int, end as int),
        ),
{
    let mut lo: usize = start;
    while lo < end && is_space(chars[lo])
        invariant
            start <= lo <= end <= chars.len(),
            forall|i: int| start <= i < lo ==> is_whitespace(#[trigger] chars@[i]),
        decreases end - lo,
    {
        lo += 1;
    }
    let mut hi: usize = end;
    while hi > lo && is_space(chars[hi - 1])
        invariant
            start <= lo <= hi <= end <= chars.len(),
            forall|i: int| hi <= i < end ==> is_whitespace(#[trigger] chars@[i]),
        decreases hi - lo,
    {
        hi -= 1;
    }
    proof {
        let piece = chars@.subrange(start as int, end as int);
        assert forall|i: int| 0 <= i < lo - start implies is_whitespace(#[trigger] piece[i]) by {
            assert(piece[i] == chars@[i + start]);
        }
        assert forall|i: int| hi - start <= i < piece.len() implies is_whitespace(
            #[trigger] piece[i],
        ) by {
            assert(piece[i] == chars@[i + start]);
        }
        if lo < hi {
            assert(piece[lo - start] == chars@[lo as int]);
            assert(piece[hi - start - 1] == chars@[hi - 1]);
        }
        lemma_trimmed_at(piece, lo - start, hi - start);
        assert(piece.subrange(lo - start, hi - start) =~= chars@.subrange(lo as int, hi as int));
    }
    (lo, hi)
}

/// `s` without its leading and trailing white space.
pub fn trim(s: &str) -> (r: String)
    ensures
        r@ == trimmed(s@),
{
    let chars = to_chars(s);
    let (lo, hi) = trim_bounds(&chars, 0, chars.len());
    proof {
        assert(chars@.subrange(0, chars.len() as int) =~= chars@);
    }
    String::from_str(s.substring_char(lo, hi))
}

/// Whether `s` holds nothing but white space.
pub fn blank(s: &str) -> (b: bool)
    ensures
        b == is_blank(s@),
        b == (trimmed(s@).len() == 0),
{
    let mut b: bool = true;
    for c in it: s.chars()
        invariant
            it.seq() == s@,
            b == is_blank(s@.take(it.index() as int)),
    {
        proof {
            let before = s@.take(it.index() as int);
            let after = s@.take(it.index() + 1);
            assert(after =~= before.push(c));
            if b && is_whitespace(c) {
                assert forall|i: int| 0 <= i < after.len() implies is_whitespace(
                    #[trigger] after[i],
                ) by {
                    if i < before.len() {
                        assert(after[i] == before[i]);
                    }
                }
            } else if b {
                assert(after[after.len() - 1] == c);
            } else {
                let at = choose|i: int| 0 <= i < before.len() && !is_whitespace(#[trigger] before[i]);
                assert(after[at] == before[at]);
            }
        }
        b = b && is_space(c);
    }
    proof {
        assert(s@.take(s@.len() as int) =~= s@);
        lemma_blank_iff_trimmed_empty(s@);
    }
    b
}

/// Whether the stretches `a_lo..a_hi` of `a` and `b_lo..b_hi` of `b` hold the
/// same characters.
fn same_stretch(
    a: &Vec<char>,
    a_lo: usize,
    a_hi: usize,
    b: &Vec<char>,
    b_lo: usize,
    b_hi: usize,
) -> (same: bool)
    requires
        a_lo <= a_hi <= a.len(),
        b_lo <= b_hi <= b.len(),
    ensures
        same == (a@.subrange(a_lo as int, a_hi as int) == b@.subrange(b_lo as int, b_hi as int)),
{
    let ghost left = a@.subrange(a_lo as int, a_hi as int);
    let ghost right = b@.subrange(b_lo as int, b_hi as int);
    if a_hi - a_lo != b_hi - b_lo {
        assert(left.len() != right.len());
        return false;
    }
    let n: usize = a_hi - a_lo;
    let mut k: usize = 0;
    while k < n
        invariant
            a_lo <= a_hi <= a.len(),
            b_lo <= b_hi <= b.len(),
            n == a_hi - a_lo,
            n == b_hi - b_lo,
            k <= n,
            left == a@.subrange(a_lo as int, a_hi as int),
            right == b@.subrange(b_lo as int, b_hi as int),
            forall|i: int| 0 <= i < k ==> left[i] == right[i],
        decreases n - k,
    {
        if a[a_lo + k] != b[b_lo + k] {
            assert(left[k as int] != right[k as int]);
            return false;
        }
        k += 1;
    }
    assert(left =~= right);
    true
}

/// Whether `a` and `b` hold the same text.
pub fn same_text(a: &str, b: &str) -> (same: bool)
    ensures
        same == (a@ == b@),
{
    let left = to_chars(a);
    let right = to_chars(b);
    proof {
        assert(left@.subrange(0, left.len() as int) =~= left@);
        assert(right@.subrange(0, right.len() as int) =~= right@);
    }
    same_stretch(&left, 0, left.len(), &right, 0, right.len())
}

/// Whether some line of `s`, trimmed, is `wanted` trimmed.
pub fn has_line(s: &str, wanted: &str) -> (found: bool)
    ensures
        found == some_line_trims_to(s@, trimmed(wanted@)),
{
    let chars = to_chars(s);
    let goal = to_chars(wanted);
    let (goal_lo, goal_hi) = trim_bounds(&goal, 0, goal.len());
    let ghost target = trimmed(wanted@);
    proof {
        assert(goal@.subrange(0, goal.len() as int) =~= goal@);
    }
    let mut start: usize = 0;
    while start < chars.len()
        invariant
            chars@ == s@,
            goal_lo <= goal_hi <= goal.len(),
            goal@.subrange(goal_lo as int, goal_hi as int) == target,
            target == trimmed(wanted@),
            start <= chars.len(),
            start == 0 || start == chars.len() || chars@[start - 1] == '\n',
            forall|a: int, b: int|
                #[trigger] is_line(chars@, a, b) && a < start ==> trimmed(chars@.subrange(a, b))
                    != target,
        decreases chars.len() - start,
    {
        let mut end: usize = start;
        while end < chars.len() && chars[end] != '\n'
            invariant
                start <= end <= chars.len(),
                forall|i: int| start <= i < end ==> chars@[i] != '\n',
            decreases chars.len() - end,
        {
            end += 1;
        }
        assert(is_line(chars@, start as int, end as int));
        let (lo, hi) = trim_bounds(&chars, start, end);
        if same_stretch(&chars, lo, hi, &goal, goal_lo, goal_hi) {
            return true;
        }
        proof {
            assert forall|a: int, b: int| #[trigger]
                is_line(chars@, a, b) && a <= end implies trimmed(chars@.subrange(a, b))
                != target by {
                if a >= start {
                    // A line that begins within this one is this one.
                    if a > start {
                        assert(chars@[a - 1] == '\n');
                    }
                    if b < end {
                        assert(chars@[b] == '\n');
                    }
                    if b > end {
                        assert(chars@[end as int] == '\n');
                    }
                    assert(a == start && b == end);
                }
            }
        }
        start = if end < chars.len() {
            end + 1
        } else {
            end
        };
    }
    false
}

/// The one-character text of the decimal digit `d`.
fn digit_text(d: u32) -> (r: &'static str)
    requires
        d < 10,
    ensures
        r@ == seq![digit(d as nat)],
{
    proof {
        reveal_strlit("0");
        reveal_strlit("1");
        reveal_strlit("2");
        reveal_strlit("3");
        reveal_strlit("4");
        reveal_strlit("5");
        reveal_strlit("6");
        reveal_strlit("7");
        reveal_strlit("8");
        reveal_strlit("9");
    }
    let r = if d == 0 {
        "0"
    } else if d == 1 {
        "1"
    } else if d == 2 {
        "2"
    } else if d == 3 {
        "3"
    } else if d == 4 {
        "4"
    } else if d == 5 {
        "5"
    } else if d == 6 {
        "6"
    } else if d == 7 {
        "7"
    } else if d == 8 {
        "8"
    } else {
        "9"
    };
    assert(r@ =~= seq![digit(d as nat)]);
    r
}

/// Appends the decimal numeral of `n` to `out`.
pub fn push_decimal(out: &mut String, n: u32)
    ensures
        final(out)@ == old(out)@ + decimal(n as nat),
    decreases n,
{
    if n >= 10 {
        push_decimal(out, n / 10);
    }
    out.append(digit_text(n % 10));
    proof {
        if n >= 10 {
            assert(old(out)@ + decimal(n as nat / 10) + seq![digit(n as nat % 10)] =~= old(out)@
                + decimal(n as nat));
        } else {
            assert(old(out)@ + seq![digit(n as nat)] =~= old(out)@ + decimal(n as nat));
        }
    }
}

/// Appends a copy of `word` to `words`.
pub fn push_word(words: &mut Vec<String>, word: &str)
    ensures
        final(words).deep_view() == old(words).deep_view().push(word@),
{
    words.push(String::from_str(word));
    assert(words.deep_view() =~= old(words).deep_view().push(word@));
}

/// `head`, followed by `tail`.
pub fn join(head: &str, tail: &str) -> (r: String)
    ensures
        r@ == head@ + tail@,
{
    let mut r = String::from_str(head);
    r.append(tail);
    r
}

} // verus!
