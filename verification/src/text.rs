//! Text operations on strings, stated over their sequences of characters.

use vstd::prelude::*;

verus! {

// ── Whitespace ───────────────────────────────────────────────────────────────

/// The characters with the Unicode property `White_Space`.
pub open spec fn is_white(c: char) -> bool {
    ||| '\u{9}' <= c <= '\u{d}'
    ||| c == ' '
    ||| c == '\u{85}'
    ||| c == '\u{a0}'
    ||| c == '\u{1680}'
    ||| '\u{2000}' <= c <= '\u{200a}'
    ||| c == '\u{2028}'
    ||| c == '\u{2029}'
    ||| c == '\u{202f}'
    ||| c == '\u{205f}'
    ||| c == '\u{3000}'
}

/// Tells whether `c` is whitespace.
pub fn is_whitespace(c: char) -> (r: bool)
    ensures
        r == is_white(c),
{
    ('\u{9}' <= c && c <= '\u{d}') || c == ' ' || c == '\u{85}' || c == '\u{a0}' || c == '\u{1680}'
        || ('\u{2000}' <= c && c <= '\u{200a}') || c == '\u{2028}' || c == '\u{2029}' || c
        == '\u{202f}' || c == '\u{205f}' || c == '\u{3000}'
}

/// `s` without the whitespace at its two ends.
pub open spec fn trimmed(s: Seq<char>) -> Seq<char>
    decreases s.len(),
{
    if s.len() > 0 && is_white(s.first()) {
        trimmed(s.drop_first())
    } else if s.len() > 0 && is_white(s.last()) {
        trimmed(s.drop_last())
    } else {
        s
    }
}

/// The characters of `s`, in order.
pub fn chars_of(s: &str) -> (r: Vec<char>)
    ensures
        r@ == s@,
{
    let mut r: Vec<char> = Vec::new();
    for c in it: s.chars()
        invariant
            it.seq() == s@,
            r@ == s@.take(it.index()),
    {
        r.push(c);
        assert(s@.take(it.index() + 1) =~= s@.take(it.index()).push(c));
    }
    assert(s@.take(s@.len() as int) =~= s@);
    r
}

/// Tells whether two strings are the same.
pub fn same(a: &str, b: &str) -> (r: bool)
    ensures
        r == (a@ == b@),
{
    a.to_owned() == b.to_owned()
}

/// `s` without the whitespace at its two ends.
pub fn trim(s: &str) -> (r: &str)
    ensures
        r@ == trimmed(s@),
{
    let cs = chars_of(s);
    let mut lo: usize = 0;
    assert(s@.subrange(0, s@.len() as int) =~= s@);
    while lo < cs.len() && is_whitespace(cs[lo])
        invariant
            lo <= cs.len(),
            cs@ == s@,
            trimmed(s@) == trimmed(s@.subrange(lo as int, s@.len() as int)),
        decreases cs.len() - lo,
    {
        assert(s@.subrange(lo as int, s@.len() as int).drop_first() =~= s@.subrange(
            lo + 1,
            s@.len() as int,
        ));
        lo += 1;
    }
    let mut hi: usize = cs.len();
    while lo < hi && is_whitespace(cs[hi - 1])
        invariant
            lo <= hi <= cs.len(),
            cs@ == s@,
            lo < cs.len() ==> !is_white(cs@[lo as int]),
            trimmed(s@) == trimmed(s@.subrange(lo as int, hi as int)),
        decreases hi,
    {
        assert(s@.subrange(lo as int, hi as int).drop_last() =~= s@.subrange(lo as int, hi - 1));
        hi -= 1;
    }
    s.substring_char(lo, hi)
}

/// Outside the stretch from `i` to `j`, `s` holds nothing but whitespace.
pub open spec fn white_around(s: Seq<char>, i: int, j: int) -> bool {
    &&& 0 <= i <= j <= s.len()
    &&& forall|k: int| 0 <= k < i ==> is_white(#[trigger] s[k])
    &&& forall|k: int| j <= k < s.len() ==> is_white(#[trigger] s[k])
}

proof fn lemma_white_before(s: Seq<char>, i: int, j: int)
    requires
        s.len() > 0,
        is_white(s.first()),
        white_around(s.drop_first(), i, j),
    ensures
        white_around(s, i + 1, j + 1),
        s.subrange(i + 1, j + 1) == s.drop_first().subrange(i, j),
{
    let t = s.drop_first();
    assert(s.subrange(i + 1, j + 1) =~= t.subrange(i, j));
    assert forall|k: int| 0 <= k < i + 1 implies is_white(#[trigger] s[k]) by {
        if k > 0 {
            assert(is_white(t[k - 1]));
        }
    }
    assert forall|k: int| j + 1 <= k < s.len() implies is_white(#[trigger] s[k]) by {
        assert(is_white(t[k - 1]));
    }
}

proof fn lemma_white_after(s: Seq<char>, i: int, j: int)
    requires
        s.len() > 0,
        is_white(s.last()),
        white_around(s.drop_last(), i, j),
    ensures
        white_around(s, i, j),
        s.subrange(i, j) == s.drop_last().subrange(i, j),
{
    let t = s.drop_last();
    assert(s.subrange(i, j) =~= t.subrange(i, j));
    assert forall|k: int| 0 <= k < i implies is_white(#[trigger] s[k]) by {
        assert(is_white(t[k]));
    }
    assert forall|k: int| j <= k < s.len() implies is_white(#[trigger] s[k]) by {
        if k < t.len() {
            assert(is_white(t[k]));
        }
    }
}

/// `t` is a stretch of `s` with nothing but whitespace around it.
pub open spec fn is_core(s: Seq<char>, t: Seq<char>) -> bool {
    exists|i: int, j: int| #[trigger] white_around(s, i, j) && t == s.subrange(i, j)
}

/// What [`trimmed`] leaves: a stretch of `s` that neither begins nor ends with
/// whitespace, with nothing but whitespace around it.
pub proof fn law_trim(s: Seq<char>)
    ensures
        trimmed(s).len() > 0 ==> !is_white(trimmed(s).first()) && !is_white(trimmed(s).last()),
        is_core(s, trimmed(s)),
    decreases s.len(),
{
    if s.len() > 0 && is_white(s.first()) {
        let t = s.drop_first();
        law_trim(t);
        let (i, j) = choose|i: int, j: int| #[trigger]
            white_around(t, i, j) && trimmed(t) == t.subrange(i, j);
        lemma_white_before(s, i, j);
    } else if s.len() > 0 && is_white(s.last()) {
        let t = s.drop_last();
        law_trim(t);
        let (i, j) = choose|i: int, j: int| #[trigger]
            white_around(t, i, j) && trimmed(t) == t.subrange(i, j);
        lemma_white_after(s, i, j);
    } else {
        assert(s.subrange(0, s.len() as int) =~= s);
        assert(white_around(s, 0, s.len() as int));
    }
}

/// Trimming a trimmed text changes nothing.
pub proof fn law_trim_is_idempotent(s: Seq<char>)
    ensures
        trimmed(trimmed(s)) == trimmed(s),
{
    law_trim(s);
}

// ── Trailing characters ──────────────────────────────────────────────────────

/// `s` without the run of `c` at its end.
pub open spec fn without_trailing(s: Seq<char>, c: char) -> Seq<char>
    decreases s.len(),
{
    if s.len() > 0 && s.last() == c {
        without_trailing(s.drop_last(), c)
    } else {
        s
    }
}

/// `s` without the run of `c` at its end.
pub fn trim_trailing(s: &str, c: char) -> (r: &str)
    ensures
        r@ == without_trailing(s@, c),
{
    let cs = chars_of(s);
    let mut hi: usize = cs.len();
    assert(s@.take(hi as int) =~= s@);
    while hi > 0 && cs[hi - 1] == c
        invariant
            hi <= cs.len(),
            cs@ == s@,
            without_trailing(s@, c) == without_trailing(s@.take(hi as int), c),
        decreases hi,
    {
        assert(s@.take(hi as int).drop_last() =~= s@.take(hi - 1));
        hi -= 1;
    }
    assert(s@.take(hi as int) =~= s@.subrange(0, hi as int));
    s.substring_char(0, hi)
}

// ── Comparison ───────────────────────────────────────────────────────────────

/// `c` with an ASCII capital letter made small.
pub open spec fn ascii_small(c: char) -> char {
    if 'A' <= c <= 'Z' {
        (c as u32 + 32) as char
    } else {
        c
    }
}

/// Every ASCII capital letter of `s` made small.
pub open spec fn ascii_lowered(s: Seq<char>) -> Seq<char> {
    s.map_values(|c: char| ascii_small(c))
}

/// Tells whether two characters differ at most in the case of an ASCII letter.
fn same_but_case(a: char, b: char) -> (r: bool)
    ensures
        r == (ascii_small(a) == ascii_small(b)),
{
    let x: u32 = if 'A' <= a && a <= 'Z' {
        a as u32 + 32
    } else {
        a as u32
    };
    let y: u32 = if 'A' <= b && b <= 'Z' {
        b as u32 + 32
    } else {
        b as u32
    };
    x == y
}

/// Tells whether two strings differ at most in the case of ASCII letters.
pub fn same_ignoring_ascii_case(a: &str, b: &str) -> (r: bool)
    ensures
        r == (ascii_lowered(a@) == ascii_lowered(b@)),
{
    let x = chars_of(a);
    let y = chars_of(b);
    if x.len() != y.len() {
        assert(ascii_lowered(a@).len() != ascii_lowered(b@).len());
        return false;
    }
    let mut i: usize = 0;
    while i < x.len()
        invariant
            i <= x.len() == y.len(),
            x@ == a@,
            y@ == b@,
            forall|k: int| 0 <= k < i ==> ascii_small(#[trigger] a@[k]) == ascii_small(b@[k]),
        decreases x.len() - i,
    {
        if !same_but_case(x[i], y[i]) {
            assert(ascii_lowered(a@)[i as int] != ascii_lowered(b@)[i as int]);
            return false;
        }
        i += 1;
    }
    assert(ascii_lowered(a@) =~= ascii_lowered(b@));
    true
}

// ── Search ───────────────────────────────────────────────────────────────────

/// `p` stands in `s` at `i`.
pub open spec fn occurs_at(s: Seq<char>, p: Seq<char>, i: int) -> bool {
    0 <= i && i + p.len() <= s.len() && s.subrange(i, i + p.len()) == p
}

/// `p` stands somewhere in `s`.
pub open spec fn contains_text(s: Seq<char>, p: Seq<char>) -> bool {
    exists|i: int| occurs_at(s, p, i)
}

/// Tells whether `p` stands somewhere in `s`.
pub fn contains(s: &str, p: &str) -> (r: bool)
    ensures
        r == contains_text(s@, p@),
{
    let x = chars_of(s);
    let y = chars_of(p);
    if y.len() > x.len() {
        return false;
    }
    let mut i: usize = 0;
    while i <= x.len() - y.len()
        invariant
            i <= x.len() - y.len() + 1,
            y.len() <= x.len(),
            x@ == s@,
            y@ == p@,
            forall|k: int| 0 <= k < i ==> !occurs_at(s@, p@, k),
        decreases x.len() - i + 1,
    {
        let mut j: usize = 0;
        while j < y.len() && x[i + j] == y[j]
            invariant
                j <= y.len(),
                i + y.len() <= x.len(),
                forall|k: int| 0 <= k < j ==> #[trigger] y@[k] == x@[i + k],
            decreases y.len() - j,
        {
            j += 1;
        }
        if j == y.len() {
            assert(s@.subrange(i as int, i + p@.len()) =~= p@);
            assert(occurs_at(s@, p@, i as int));
            return true;
        }
        assert(s@.subrange(i as int, i + p@.len())[j as int] != p@[j as int]);
        if i == x.len() - y.len() {
            assert forall|k: int| !occurs_at(s@, p@, k) by {}
            return false;
        }
        i += 1;
    }
    false
}

// ── Sentences ────────────────────────────────────────────────────────────────

/// The characters that end a sentence or a line.
pub open spec fn ends_sentence(c: char) -> bool {
    c == '.' || c == '!' || c == '?' || c == '\n'
}

/// `s` up to its last sentence end, or all of `s` where it has none.
pub open spec fn whole_sentences(s: Seq<char>) -> Seq<char> {
    if exists|i: int| 0 <= i < s.len() && ends_sentence(#[trigger] s[i]) {
        s.take(last_sentence_end(s) + 1)
    } else {
        s
    }
}

/// Where the last sentence end of `s` stands; -1 where it has none.
pub open spec fn last_sentence_end(s: Seq<char>) -> int
    decreases s.len(),
{
    if s.len() == 0 {
        -1
    } else if ends_sentence(s.last()) {
        s.len() - 1
    } else {
        last_sentence_end(s.drop_last())
    }
}

/// [`last_sentence_end`] is the last position that holds a sentence end.
pub proof fn lemma_last_sentence_end(s: Seq<char>)
    ensures
        -1 <= last_sentence_end(s) < s.len(),
        last_sentence_end(s) >= 0 ==> ends_sentence(s[last_sentence_end(s)]),
        forall|i: int| last_sentence_end(s) < i < s.len() ==> !ends_sentence(#[trigger] s[i]),
    decreases s.len(),
{
    if s.len() > 0 && !ends_sentence(s.last()) {
        let t = s.drop_last();
        lemma_last_sentence_end(t);
        assert forall|i: int| last_sentence_end(s) < i < s.len() implies !ends_sentence(
            #[trigger] s[i],
        ) by {
            if i < t.len() {
                assert(t[i] == s[i]);
            }
        }
    }
}

/// `s` up to its last sentence end, or all of `s` where it has none.
pub fn cut_to_sentences(s: &str) -> (r: &str)
    ensures
        r@ == whole_sentences(s@),
{
    let cs = chars_of(s);
    let mut hi: usize = cs.len();
    proof {
        lemma_last_sentence_end(s@);
    }
    while hi > 0
        invariant
            hi <= cs.len(),
            cs@ == s@,
            -1 <= last_sentence_end(s@) < hi || (last_sentence_end(s@) == -1 && hi == 0),
            last_sentence_end(s@) >= 0 ==> ends_sentence(s@[last_sentence_end(s@)]),
            forall|i: int| last_sentence_end(s@) < i < s@.len() ==> !ends_sentence(
                #[trigger] s@[i],
            ),
        decreases hi,
    {
        let c = cs[hi - 1];
        if c == '.' || c == '!' || c == '?' || c == '\n' {
            assert(ends_sentence(s@[hi - 1]));
            assert(s@.take(hi as int) =~= s@.subrange(0, hi as int));
            return s.substring_char(0, hi);
        }
        hi -= 1;
    }
    s
}

// ── Numbers ──────────────────────────────────────────────────────────────────

/// The decimal digit for `d`.
pub open spec fn digit(d: nat) -> Seq<char> {
    seq![(48 + d) as char]
}

/// `n` in decimal, without leading zeros.
pub open spec fn decimal(n: nat) -> Seq<char>
    decreases n,
{
    if n < 10 {
        digit(n)
    } else {
        decimal(n / 10) + digit(n % 10)
    }
}

/// One decimal digit as text.
fn digit_text(d: u64) -> (r: &'static str)
    requires
        d < 10,
    ensures
        r@ == digit(d as nat),
{
    proof {
        reveal_strlit("0");
        reveal_strlit("1");
        reveal_strlit("2");
        reveal_strlit("3");
        reveal_strlit("4");
        reveal_strlit("5");
        reveal_strlit("6");
        reveal_strlit("7");
        reveal_strlit("8");
        reveal_strlit("9");
    }
    let r = if d == 0 {
        "0"
    } else if d == 1 {
        "1"
    } else if d == 2 {
        "2"
    } else if d == 3 {
        "3"
    } else if d == 4 {
        "4"
    } else if d == 5 {
        "5"
    } else if d == 6 {
        "6"
    } else if d == 7 {
        "7"
    } else if d == 8 {
        "8"
    } else {
        "9"
    };
    assert(r@ =~= digit(d as nat));
    r
}

/// `n` in decimal.
pub fn number(n: u64) -> (r: String)
    ensures
        r@ == decimal(n as nat),
    decreases n,
{
    if n < 10 {
        digit_text(n).to_owned()
    } else {
        let mut r = number(n / 10);
        r.append(digit_text(n % 10));
        r
    }
}

/// `a` followed by `b`.
pub fn join2(a: &str, b: &str) -> (r: String)
    ensures
        r@ == a@ + b@,
{
    a.to_owned().concat(b)
}

// ── Laws ─────────────────────────────────────────────────────────────────────

/// A text loses the run of one character at its end, all of it, and nothing else.
pub proof fn law_without_trailing(s: Seq<char>, c: char)
    ensures
        ({
            let r = without_trailing(s, c);
            &&& r.is_prefix_of(s)
            &&& r.len() > 0 ==> r.last() != c
            &&& forall|i: int| r.len() <= i < s.len() ==> #[trigger] s[i] == c
        }),
    decreases s.len(),
{
    if s.len() > 0 && s.last() == c {
        let t = s.drop_last();
        law_without_trailing(t, c);
        let r = without_trailing(t, c);
        assert forall|i: int| r.len() <= i < s.len() implies #[trigger] s[i] == c by {
            if i < t.len() {
                assert(t[i] == c);
            }
        }
        assert(r =~= s.subrange(0, r.len() as int));
    } else {
        assert(s =~= s.subrange(0, s.len() as int));
    }
}

/// Lowering touches the letters from `A` to `Z`, each of which becomes the small letter
/// thirty-two code points on, and nothing else.
pub proof fn law_ascii_lowered(s: Seq<char>, i: int)
    requires
        0 <= i < s.len(),
    ensures
        ascii_lowered(s).len() == s.len(),
        'A' <= s[i] <= 'Z' ==> ascii_lowered(s)[i] as int == s[i] as int + 32,
        !('A' <= s[i] <= 'Z') ==> ascii_lowered(s)[i] == s[i],
{
}

/// A text contains whatever it is put together from.
pub proof fn law_contains_what_it_is_made_of(before: Seq<char>, part: Seq<char>, after: Seq<char>)
    ensures
        contains_text(before + part + after, part),
{
    let s = before + part + after;
    assert(s.subrange(before.len() as int, (before.len() + part.len()) as int) =~= part);
    assert(occurs_at(s, part, before.len() as int));
}

/// A text that contains another is put together from it and what stands on its sides.
pub proof fn law_contained_text_can_be_cut_out(s: Seq<char>, part: Seq<char>)
    requires
        contains_text(s, part),
    ensures
        exists|i: int|
            0 <= i && i + part.len() <= s.len() && s == #[trigger] s.take(i) + part + s.skip(
                i + part.len(),
            ),
{
    let i = choose|i: int| occurs_at(s, part, i);
    assert(s =~= s.take(i) + part + s.skip(i + part.len()));
}

/// Cutting to whole sentences leaves a beginning of the text. Where the text has a full
/// stop, an exclamation mark, a question mark or a line break, what is left ends with
/// one, and what is cut off has none; where it has none, nothing is cut off.
pub proof fn law_whole_sentences(s: Seq<char>)
    ensures
        ({
            let r = whole_sentences(s);
            &&& r.is_prefix_of(s)
            &&& r.len() < s.len() ==> r.len() > 0 && (r.last() == '.' || r.last() == '!' || r.last()
                == '?' || r.last() == '\n')
            &&& forall|i: int|
                r.len() <= i < s.len() ==> !(#[trigger] s[i] == '.' || s[i] == '!' || s[i] == '?'
                    || s[i] == '\n')
            &&& forall|i: int|
                0 <= i < s.len() && (#[trigger] s[i] == '.' || s[i] == '!' || s[i] == '?' || s[i]
                    == '\n') ==> r.len() > 0 && (r.last() == '.' || r.last() == '!' || r.last()
                    == '?' || r.last() == '\n')
        }),
{
    lemma_last_sentence_end(s);
    let r = whole_sentences(s);
    let end = last_sentence_end(s);
    assert(s.subrange(0, s.len() as int) =~= s);
    if end >= 0 {
        assert(ends_sentence(s[end]));
        assert(r =~= s.subrange(0, end + 1));
        assert(r.last() == s[end]);
    }
    assert forall|i: int| 0 <= i < s.len() && (s[i] == '.' || s[i] == '!' || s[i] == '?' || s[i]
        == '\n') implies ends_sentence(#[trigger] s[i]) by {}
}

/// The number that a row of decimal digits stands for.
pub open spec fn value_of(digits: Seq<char>) -> int
    decreases digits.len(),
{
    if digits.len() == 0 {
        0
    } else {
        10 * value_of(digits.drop_last()) + (digits.last() as int - '0' as int)
    }
}

/// A number is written in digits that stand for it, with no zero in front unless it is
/// zero.
pub proof fn law_decimal(n: nat)
    ensures
        value_of(decimal(n)) == n,
        decimal(n).len() > 0,
        n > 0 ==> decimal(n)[0] != '0',
        n == 0 ==> decimal(n).len() == 1,
        forall|i: int| 0 <= i < decimal(n).len() ==> '0' <= #[trigger] decimal(n)[i] <= '9',
    decreases n,
{
    let s = decimal(n);
    if n < 10 {
        assert(s.drop_last() =~= Seq::<char>::empty());
        assert(value_of(s.drop_last()) == 0);
    } else {
        law_decimal(n / 10);
        assert(s.drop_last() =~= decimal(n / 10));
        assert(s.last() == digit(n % 10)[0]);
        assert(s[0] == decimal(n / 10)[0]);
        assert forall|i: int| 0 <= i < s.len() implies '0' <= #[trigger] s[i] <= '9' by {
            if i < s.len() - 1 {
                assert(s[i] == decimal(n / 10)[i]);
            }
        }
    }
}

/// Whitespace are the characters that Unicode gives the property, by their code points,
/// and no others.
pub proof fn law_whitespace(c: char)
    ensures
        ({
            let code = c as int;
            is_white(c) <==> (9 <= code <= 13 || code == 32 || code == 133 || code == 160 || code
                == 5760 || 8192 <= code <= 8202 || code == 8232 || code == 8233 || code == 8239
                || code == 8287 || code == 12288)
        }),
{
}

} // verus!
