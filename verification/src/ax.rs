//! The text around the cursor of the focused field.

use vstd::prelude::*;
use crate::text::chars_of;

verus! {

/// How many UTF-16 units a character takes.
pub open spec fn width(c: char) -> nat {
    if c > '\u{ffff}' {
        2
    } else {
        1
    }
}

/// How many UTF-16 units a text takes.
pub open spec fn units(text: Seq<char>) -> nat
    decreases text.len(),
{
    if text.len() == 0 {
        0
    } else {
        units(text.drop_last()) + width(text.last())
    }
}

/// How many characters of `text` fit into `room` UTF-16 units.
pub open spec fn chars_within(text: Seq<char>, room: int) -> int
    decreases text.len(),
{
    if text.len() == 0 || units(text) <= room {
        text.len() as int
    } else {
        chars_within(text.drop_last(), room)
    }
}

/// How many characters stand before a cursor whose place is counted in UTF-16 units:
/// as many as fit before it. A negative place, as well as one behind the text, counts
/// as the end.
pub open spec fn cursor_in(text: Seq<char>, location: isize) -> int {
    if location < 0 {
        text.len() as int
    } else {
        chars_within(text, location as int)
    }
}

proof fn lemma_units_grow(text: Seq<char>, i: int, j: int)
    requires
        0 <= i <= j <= text.len(),
    ensures
        units(text.take(i)) + (j - i) <= units(text.take(j)),
    decreases j - i,
{
    if i < j {
        lemma_units_grow(text, i, j - 1);
        assert(text.take(j).drop_last() =~= text.take(j - 1));
    }
}

/// As many characters fit as [`chars_within`] says, and one more does not.
proof fn lemma_chars_within(text: Seq<char>, room: int)
    requires
        0 <= room,
    ensures
        0 <= chars_within(text, room) <= text.len(),
        units(text.take(chars_within(text, room))) <= room,
        chars_within(text, room) < text.len() ==> units(text.take(chars_within(text, room) + 1))
            > room,
    decreases text.len(),
{
    assert(text.take(text.len() as int) =~= text);
    if text.len() > 0 && units(text) > room {
        let shorter = text.drop_last();
        lemma_chars_within(shorter, room);
        let k = chars_within(shorter, room);
        assert(shorter.take(k) =~= text.take(k));
        if k < shorter.len() {
            assert(shorter.take(k + 1) =~= text.take(k + 1));
        }
    }
}

/// The cursor stands behind the characters whose units are all before it: it is the
/// largest number of characters that take no more units than its place counts.
pub proof fn law_cursor(text: Seq<char>, location: isize, k: int)
    requires
        0 <= location,
        0 <= k <= text.len(),
    ensures
        0 <= cursor_in(text, location) <= text.len(),
        k <= cursor_in(text, location) <==> units(text.take(k)) <= location,
{
    lemma_chars_within(text, location as int);
    let cursor = cursor_in(text, location);
    if k <= cursor {
        lemma_units_grow(text, k, cursor);
    } else {
        lemma_units_grow(text, cursor + 1, k);
    }
}

/// The number of characters before a cursor whose place is counted in UTF-16 units.
fn cursor_of(chars: &Vec<char>, location: isize) -> (r: usize)
    ensures
        r == cursor_in(chars@, location),
        r <= chars@.len(),
{
    if location < 0 {
        return chars.len();
    }
    let mut k: usize = 0;
    let mut used: isize = 0;
    assert(chars@.take(0) =~= Seq::<char>::empty());
    while k < chars.len()
        invariant
            0 <= used <= location,
            k <= chars@.len(),
            used == units(chars@.take(k as int)),
        decreases chars.len() - k,
    {
        let w: isize = if chars[k] > '\u{ffff}' {
            2
        } else {
            1
        };
        assert(chars@.take(k + 1).drop_last() =~= chars@.take(k as int));
        if w > location - used {
            proof {
                law_cursor(chars@, location, k as int);
                law_cursor(chars@, location, k + 1);
            }
            return k;
        }
        used = used + w;
        k = k + 1;
    }
    proof {
        law_cursor(chars@, location, k as int);
    }
    k
}

/// At most `max_chars` characters of `text` before `end`.
pub open spec fn before(text: Seq<char>, end: int, max_chars: usize) -> Seq<char> {
    text.subrange(
        if end > max_chars {
            end - max_chars
        } else {
            0
        },
        end,
    )
}

/// Up to `max_chars` characters immediately before the cursor of a field with this
/// text. The cursor's place is counted in UTF-16 units, as the accessibility interface
/// does. Where the field does not tell its cursor, the last ones of the text.
pub fn read_context(text: &str, location: Option<isize>, max_chars: usize) -> (r: String)
    ensures
        r@ == match location {
            Some(l) => before(text@, cursor_in(text@, l), max_chars),
            None => before(text@, text@.len() as int, max_chars),
        },
{
    let chars = chars_of(text);
    let cursor = match location {
        Some(l) => cursor_of(&chars, l),
        None => chars.len(),
    };
    let start = cursor.saturating_sub(max_chars);
    text.substring_char(start, cursor).to_owned()
}

/// The buffer that holds a string of `char_len` UTF-16 units in UTF-8 whatever they
/// are, with the zero byte at its end.
pub fn utf8_buffer_size(char_len: isize) -> (r: isize)
    requires
        0 <= char_len,
        char_len * 4 + 1 <= isize::MAX,
    ensures
        r == char_len * 4 + 1,
{
    char_len * 4 + 1
}

/// The context ends at the cursor and has the length asked for, or all there is:
/// nothing of it stands behind the cursor.
pub proof fn law_context_length(text: Seq<char>, location: isize, max_chars: usize)
    ensures
        ({
            let end = cursor_in(text, location);
            let context = before(text, end, max_chars);
            &&& 0 <= end <= text.len()
            &&& 0 <= location ==> units(text.take(end)) <= location
            &&& location < 0 ==> end == text.len()
            &&& context.len() == if end < max_chars {
                end
            } else {
                max_chars as int
            }
            &&& context.is_suffix_of(text.take(end))
        }),
{
    if 0 <= location {
        lemma_chars_within(text, location as int);
    }
    let end = cursor_in(text, location);
    let context = before(text, end, max_chars);
    assert(text.take(end).subrange(end - context.len(), end) =~= context);
}

/// Characters take one UTF-16 unit each, those from U+10000 on two, and a text takes what
/// its parts take.
pub proof fn law_units(first: Seq<char>, second: Seq<char>, c: char)
    ensures
        units(first + second) == units(first) + units(second),
        units(seq![c]) == if c as int >= 0x1_0000 {
            2nat
        } else {
            1nat
        },
        units(Seq::<char>::empty()) == 0,
    decreases second.len(),
{
    assert(seq![c].drop_last() =~= Seq::<char>::empty());
    assert(units(seq![c].drop_last()) == 0);
    if second.len() == 0 {
        assert(first + second =~= first);
    } else {
        law_units(first, second.drop_last(), c);
        assert((first + second).drop_last() =~= first + second.drop_last());
    }
}

/// What was read is what stands right before the cursor: wherever the cursor is set
/// between two texts, the context is the end of the first, as much as was asked for, and
/// nothing of the second.
pub proof fn law_context_is_before_the_cursor(
    first: Seq<char>,
    second: Seq<char>,
    location: isize,
    max_chars: usize,
)
    requires
        location == units(first),
    ensures
        cursor_in(first + second, location) == first.len(),
        before(first + second, first.len() as int, max_chars) == if first.len() > max_chars {
            first.skip(first.len() - max_chars)
        } else {
            first
        },
{
    let text = first + second;
    let n = first.len() as int;
    assert(text.take(n) =~= first);
    law_cursor(text, location, n);
    if n < text.len() {
        law_cursor(text, location, n + 1);
        lemma_units_grow(text, n, n + 1);
    }
    assert(before(text, n, max_chars) =~= if n > max_chars {
        first.skip(n - max_chars)
    } else {
        first
    });
}

} // verus!
