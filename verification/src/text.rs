//! Character-level building blocks of a protocol line.

use vstd::prelude::*;
use vstd::std_specs::iter::IteratorSpec;

verus! {

/// A middle parameter as it stands on the wire: one space, then the text.
pub open spec fn word(a: Seq<char>) -> Seq<char> {
    seq![' '] + a
}

/// A trailing parameter as it stands on the wire: a space, the rest-of-line
/// marker, then the text.
pub open spec fn trailing(a: Seq<char>) -> Seq<char> {
    seq![' ', ':'] + a
}

/// An optional middle parameter: absent means that nothing is emitted.
pub open spec fn opt_word(a: Option<Seq<char>>) -> Seq<char> {
    match a {
        Some(t) => word(t),
        None => Seq::empty(),
    }
}

/// An optional trailing parameter: absent means that nothing is emitted.
pub open spec fn opt_trailing(a: Option<Seq<char>>) -> Seq<char> {
    match a {
        Some(t) => trailing(t),
        None => Seq::empty(),
    }
}

/// The characters of an optional string.
pub open spec fn opt_view(a: Option<String>) -> Option<Seq<char>> {
    match a {
        Some(t) => Some(t@),
        None => None,
    }
}

/// `String::push` of the standard library: appends exactly the one character
/// given to the end of the string and leaves what was there untouched.
pub assume_specification[ String::push ](s: &mut String, ch: char)
    ensures
        final(s)@ == old(s)@.push(ch),
;

/// Appends `a` to `out` as a middle parameter.
pub fn push_word(out: &mut String, a: &str)
    ensures
        final(out)@ == old(out)@ + word(a@),
{
    out.push(' ');
    out.append(a);
    assert(out@ =~= old(out)@ + word(a@));
}

/// Appends `a` to `out` as a trailing parameter.
pub fn push_trailing(out: &mut String, a: &str)
    ensures
        final(out)@ == old(out)@ + trailing(a@),
{
    out.push(' ');
    out.push(':');
    out.append(a);
    assert(out@ =~= old(out)@ + trailing(a@));
}

/// Appends `a` to `out` as a middle parameter if it is present.
pub fn push_opt_word(out: &mut String, a: &Option<String>)
    ensures
        final(out)@ == old(out)@ + opt_word(opt_view(*a)),
{
    match a {
        Some(t) => push_word(out, t.as_str()),
        None => {
            assert(out@ =~= old(out)@ + opt_word(opt_view(*a)));
        },
    }
}

/// Appends `a` to `out` as a trailing parameter if it is present.
pub fn push_opt_trailing(out: &mut String, a: &Option<String>)
    ensures
        final(out)@ == old(out)@ + opt_trailing(opt_view(*a)),
{
    match a {
        Some(t) => push_trailing(out, t.as_str()),
        None => {
            assert(out@ =~= old(out)@ + opt_trailing(opt_view(*a)));
        },
    }
}

/// Whether the two-character line break, a carriage return and then a line
/// feed, stands at position `i` of `s`.
pub open spec fn is_break_at(s: Seq<char>, i: int) -> bool {
    0 <= i && i + 1 < s.len() && s[i] == '\r' && s[i + 1] == '\n'
}

/// Whether `s` holds no line break.
pub open spec fn has_no_break(s: Seq<char>) -> bool {
    forall|i: int| !is_break_at(s, i)
}

/// The number of line breaks of `s` that start at position `i` or later.
pub open spec fn breaks_from(s: Seq<char>, i: int) -> nat
    decreases s.len() - i,
{
    if i < 0 || i >= s.len() {
        0
    } else if is_break_at(s, i) {
        1 + breaks_from(s, i + 1)
    } else {
        breaks_from(s, i + 1)
    }
}

/// The number of line breaks in `s`.
pub open spec fn count_breaks(s: Seq<char>) -> nat {
    breaks_from(s, 0)
}

/// The segments of `s` from `start` on, where no line break starts in
/// `start..i`: the text up to the next line break, and then the segments of
/// what follows it.
pub open spec fn lines_from(s: Seq<char>, start: int, i: int) -> Seq<Seq<char>>
    decreases s.len() - i,
{
    if i < 0 || i >= s.len() || start < 0 || start > i {
        seq![s.subrange(start, s.len() as int)]
    } else if is_break_at(s, i) {
        seq![s.subrange(start, i)] + lines_from(s, i + 2, i + 2)
    } else {
        lines_from(s, start, i + 1)
    }
}

/// The segments into which the line breaks of `s` cut it, in order. A text
/// without a line break is its own single segment, the empty text too.
pub open spec fn split_lines(s: Seq<char>) -> Seq<Seq<char>> {
    lines_from(s, 0, 0)
}

/// The segments joined again, with a line break between each two.
pub open spec fn join_lines(lines: Seq<Seq<char>>) -> Seq<char>
    decreases lines.len(),
{
    if lines.len() == 0 {
        Seq::empty()
    } else if lines.len() == 1 {
        lines[0]
    } else {
        lines[0] + seq!['\r', '\n'] + join_lines(lines.skip(1))
    }
}

/// Cuts `s` at each line break.
pub fn split_on_breaks(s: &str) -> (r: Vec<String>)
    ensures
        r.len() == split_lines(s@).len(),
        forall|k: int| 0 <= k < r.len() ==> (#[trigger] r@[k])@ == split_lines(s@)[k],
{
    broadcast use vstd::string::group_string_axioms;

    let mut done: Vec<String> = Vec::new();
    let mut cur = String::new();
    let mut pending = false;
    let mut rest = s.chars();
    let ghost n = s@.len() as int;
    let ghost mut i: int = 0;
    let ghost mut start: int = 0;
    let ghost mut lines: Seq<Seq<char>> = Seq::empty();
    assert(s@.skip(0) =~= s@);
    loop
        invariant
            n == s@.len(),
            0 <= start <= i <= n,
            rest.remaining() == s@.skip(i),
            rest.obeys_prophetic_iter_laws(),
            pending ==> start < i && s@[i - 1] == '\r',
            cur@ == s@.subrange(start, i - if pending { 1int } else { 0 }),
            done.len() == lines.len(),
            forall|k: int| 0 <= k < done.len() ==> (#[trigger] done@[k])@ == lines[k],
            lines + lines_from(s@, start, i - if pending { 1int } else { 0 }) == split_lines(s@),
        ensures
            i == n,
        decreases n - i,
    {
        let next = rest.next();
        let c = match next {
            Some(c) => c,
            None => {
                break ;
            },
        };
        proof {
            assert(i < n);
            assert(c == s@[i]);
            assert(s@.skip(i).drop_first() =~= s@.skip(i + 1));
        }
        let ghost j = i - if pending { 1int } else { 0 };
        if pending && c == '\n' {
            assert(is_break_at(s@, j));
            proof {
                lines = lines.push(cur@);
                assert(lines + lines_from(s@, i + 1, i + 1) =~= lines.drop_last() + lines_from(
                    s@,
                    start,
                    j,
                ));
                start = i + 1;
            }
            done.push(cur);
            cur = String::new();
            pending = false;
            assert(cur@ =~= s@.subrange(start, i + 1));
        } else {
            proof {
                if pending {
                    assert(!is_break_at(s@, j));
                    assert(lines_from(s@, start, j) == lines_from(s@, start, i));
                }
                if c != '\r' {
                    assert(!is_break_at(s@, i));
                    assert(lines_from(s@, start, i) == lines_from(s@, start, i + 1));
                }
            }
            if pending {
                cur.push('\r');
                assert(cur@ =~= s@.subrange(start, i));
            }
            if c == '\r' {
                pending = true;
            } else {
                pending = false;
                cur.push(c);
                assert(cur@ =~= s@.subrange(start, i + 1));
            }
        }
        proof {
            i = i + 1;
        }
    }
    if pending {
        cur.push('\r');
        assert(cur@ =~= s@.subrange(start, n));
    }
    proof {
        assert(cur@ =~= s@.subrange(start, n));
        assert(lines_from(s@, start, n) =~= seq![cur@]);
        assert(lines.push(cur@) =~= split_lines(s@));
    }
    done.push(cur);
    done
}

/// A text with `k` line breaks is cut into `k + 1` segments.
pub proof fn lemma_split_count(s: Seq<char>)
    ensures
        split_lines(s).len() == count_breaks(s) + 1,
{
    lemma_lines_count(s, 0, 0);
}

/// From any position on, the segments are one more than the line breaks.
pub proof fn lemma_lines_count(s: Seq<char>, start: int, i: int)
    requires
        0 <= start <= i,
    ensures
        lines_from(s, start, i).len() == breaks_from(s, i) + 1,
    decreases s.len() - i,
{
    if i >= s.len() {
    } else if is_break_at(s, i) {
        lemma_lines_count(s, i + 2, i + 2);
        assert(!is_break_at(s, i + 1));
        assert(breaks_from(s, i + 1) == breaks_from(s, i + 2));
    } else {
        lemma_lines_count(s, start, i + 1);
    }
}

/// No segment holds a line break, and the segments joined by line breaks
/// give the text back: the cut loses nothing and adds nothing.
pub proof fn lemma_split_join(s: Seq<char>)
    ensures
        join_lines(split_lines(s)) == s,
        forall|k: int| 0 <= k < split_lines(s).len() ==> has_no_break(#[trigger] split_lines(s)[k]),
{
    lemma_lines_join(s, 0, 0);
    assert(s.subrange(0, s.len() as int) =~= s);
}

/// The same, from any position on.
pub proof fn lemma_lines_join(s: Seq<char>, start: int, i: int)
    requires
        0 <= start <= i <= s.len(),
        forall|j: int| start <= j < i ==> !is_break_at(s, j),
    ensures
        join_lines(lines_from(s, start, i)) == s.subrange(start, s.len() as int),
        forall|k: int|
            0 <= k < lines_from(s, start, i).len() ==> has_no_break(
                #[trigger] lines_from(s, start, i)[k],
            ),
    decreases s.len() - i,
{
    let whole = s.subrange(start, s.len() as int);
    if i >= s.len() {
        assert(lines_from(s, start, i) =~= seq![whole]);
        assert forall|m: int| !is_break_at(whole, m) by {
            if is_break_at(whole, m) {
                assert(is_break_at(s, start + m));
            }
        }
    } else if is_break_at(s, i) {
        lemma_lines_join(s, i + 2, i + 2);
        lemma_lines_count(s, i + 2, i + 2);
        let head = s.subrange(start, i);
        let tail = lines_from(s, i + 2, i + 2);
        let all = seq![head] + tail;
        assert(lines_from(s, start, i) == all);
        assert(all.skip(1) =~= tail);
        assert(all[0] == head);
        assert(all.len() >= 2);
        assert(head + seq!['\r', '\n'] + s.subrange(i + 2, s.len() as int) =~= whole);
        assert forall|m: int| !is_break_at(head, m) by {
            if is_break_at(head, m) {
                assert(is_break_at(s, start + m));
            }
        }
        assert forall|k: int| 0 <= k < all.len() implies has_no_break(#[trigger] all[k]) by {
            if k > 0 {
                assert(all[k] == tail[k - 1]);
            }
        }
    } else {
        lemma_lines_join(s, start, i + 1);
    }
}

/// The character of a decimal digit.
pub open spec fn digit(d: int) -> char {
    seq!['0', '1', '2', '3', '4', '5', '6', '7', '8', '9'][d]
}

/// A natural number in decimal, without leading zeros.
pub open spec fn digits(n: nat) -> Seq<char>
    decreases n,
{
    if n < 10 {
        seq![digit(n as int)]
    } else {
        digits(n / 10).push(digit((n % 10) as int))
    }
}

/// An integer in decimal: a minus sign before a negative one, no sign
/// otherwise.
pub open spec fn decimal(n: int) -> Seq<char> {
    if n < 0 {
        seq!['-'] + digits((-n) as nat)
    } else {
        digits(n as nat)
    }
}

/// The digits of `n`, but none at all for zero: what is left to write in
/// front once the lower digits of a number have been taken off.
pub open spec fn leading_digits(n: nat) -> Seq<char> {
    if n == 0 {
        Seq::empty()
    } else {
        digits(n)
    }
}

/// A sequence read from its end.
pub open spec fn backwards(s: Seq<char>) -> Seq<char> {
    Seq::new(s.len(), |j: int| s[s.len() - 1 - j])
}

/// The character of the digit `d`.
pub fn digit_char(d: u64) -> (c: char)
    requires
        d < 10,
    ensures
        c == digit(d as int),
{
    if d == 0 {
        '0'
    } else if d == 1 {
        '1'
    } else if d == 2 {
        '2'
    } else if d == 3 {
        '3'
    } else if d == 4 {
        '4'
    } else if d == 5 {
        '5'
    } else if d == 6 {
        '6'
    } else if d == 7 {
        '7'
    } else if d == 8 {
        '8'
    } else {
        '9'
    }
}

/// Writes `n` in decimal.
pub fn decimal_text(n: i64) -> (r: String)
    ensures
        r@ == decimal(n as int),
{
    let magnitude: u64 = if n < 0 {
        (-(n + 1)) as u64 + 1
    } else {
        n as u64
    };
    let mut rest: u64 = magnitude / 10;
    let mut low: Vec<char> = Vec::new();
    low.push(digit_char(magnitude % 10));
    assert(leading_digits(rest as nat) + backwards(low@) =~= digits(magnitude as nat));
    while rest > 0
        invariant
            low.len() > 0,
            leading_digits(rest as nat) + backwards(low@) == digits(magnitude as nat),
        decreases rest,
    {
        let ghost before = low@;
        let ghost r0 = rest;
        low.push(digit_char(rest % 10));
        rest = rest / 10;
        assert(leading_digits(r0 as nat) =~= leading_digits(rest as nat).push(digit((r0 % 10) as int)));
        assert(leading_digits(rest as nat) + backwards(low@) =~= leading_digits(r0 as nat)
            + backwards(before));
    }
    let mut out = String::new();
    if n < 0 {
        out.push('-');
    }
    let ghost sign = out@;
    let mut k: usize = low.len();
    while k > 0
        invariant
            k <= low.len(),
            out@ == sign + backwards(low@).take(low.len() - k),
        decreases k,
    {
        k -= 1;
        out.push(low[k]);
        assert(out@ =~= sign + backwards(low@).take(low.len() - k));
    }
    assert(backwards(low@).take(low.len() as int) =~= backwards(low@));
    assert(leading_digits(0) + backwards(low@) =~= backwards(low@));
    out
}

} // verus!
