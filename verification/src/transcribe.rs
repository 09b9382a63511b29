//! Transcripts: how the segments of a recording become one text.

use vstd::prelude::*;
use crate::text::{ascii_lowered, same_ignoring_ascii_case, trim, trimmed};

verus! {

/// What biases recognition toward clean, punctuated output and away from fillers.
pub const INITIAL_PROMPT: &'static str = "Transcription of clear spoken English. Proper punctuation and capitalization. \
No filler words.";

/// What recognition puts for a stretch without speech.
pub const BLANK_AUDIO: &'static str = "[BLANK_AUDIO]";

/// A segment that holds nothing that was said.
pub open spec fn is_blank(segment: Seq<char>) -> bool {
    trimmed(segment).len() == 0 || ascii_lowered(trimmed(segment)) == ascii_lowered(BLANK_AUDIO@)
}

/// The transcript of the segments: each without the blanks around it, those without
/// speech left out, the rest joined by single spaces.
pub open spec fn transcript(segments: Seq<Seq<char>>) -> Seq<char>
    decreases segments.len(),
{
    if segments.len() == 0 {
        Seq::empty()
    } else {
        let before = transcript(segments.drop_last());
        let last = segments.last();
        if is_blank(last) {
            before
        } else if before.len() == 0 {
            trimmed(last)
        } else {
            before + " "@ + trimmed(last)
        }
    }
}

/// The texts of a sequence of strings.
pub open spec fn texts(segments: Seq<String>) -> Seq<Seq<char>> {
    segments.map_values(|s: String| s@)
}

/// The transcript of the segments that recognition found.
pub fn join_segments(segments: &Vec<String>) -> (r: String)
    ensures
        r@ == transcript(texts(segments@)),
{
    let ghost all = texts(segments@);
    let mut text = String::new();
    let mut i: usize = 0;
    assert(all.take(0) =~= Seq::<Seq<char>>::empty());
    while i < segments.len()
        invariant
            i <= segments@.len(),
            all == texts(segments@),
            text@ == transcript(all.take(i as int)),
        decreases segments.len() - i,
    {
        assert(all.take(i + 1).drop_last() =~= all.take(i as int));
        assert(all.take(i + 1).last() == segments@[i as int]@);
        let part = trim(segments[i].as_str());
        if !(part.is_empty() || same_ignoring_ascii_case(part, BLANK_AUDIO)) {
            if !text.as_str().is_empty() {
                text.append(" ");
            }
            text.append(part);
            assert(text@ =~= transcript(all.take(i + 1)));
        }
        i += 1;
    }
    assert(all.take(i as int) =~= all);
    text
}

/// A transcript neither begins nor ends with a blank.
pub proof fn law_transcript_is_trimmed(segments: Seq<Seq<char>>)
    ensures
        transcript(segments).len() > 0 ==> !crate::text::is_white(transcript(segments).first())
            && !crate::text::is_white(transcript(segments).last()),
        trimmed(transcript(segments)) == transcript(segments),
    decreases segments.len(),
{
    if segments.len() > 0 {
        law_transcript_is_trimmed(segments.drop_last());
        crate::text::law_trim(segments.last());
    }
}

/// A transcript is empty exactly when nothing was said.
pub proof fn law_transcript_is_empty_without_speech(segments: Seq<Seq<char>>)
    ensures
        transcript(segments).len() == 0 <==> forall|i: int|
            0 <= i < segments.len() ==> is_blank(#[trigger] segments[i]),
    decreases segments.len(),
{
    if segments.len() > 0 {
        let shorter = segments.drop_last();
        law_transcript_is_empty_without_speech(shorter);
        if transcript(segments).len() == 0 {
            assert forall|i: int| 0 <= i < segments.len() implies is_blank(
                #[trigger] segments[i],
            ) by {
                if i < shorter.len() {
                    assert(is_blank(shorter[i]));
                }
            }
        }
        if forall|i: int| 0 <= i < segments.len() ==> is_blank(#[trigger] segments[i]) {
            assert forall|i: int| 0 <= i < shorter.len() implies is_blank(#[trigger] shorter[i]) by {
                assert(is_blank(segments[i]));
            }
            assert(is_blank(segments[segments.len() - 1]));
        }
    }
}

/// One text behind the other, with a single space between them where neither is empty.
pub open spec fn spaced(a: Seq<char>, b: Seq<char>) -> Seq<char> {
    if a.len() == 0 {
        b
    } else if b.len() == 0 {
        a
    } else {
        a + seq![' '] + b
    }
}

proof fn lemma_space()
    ensures
        " "@ == seq![' '],
{
    reveal_strlit(" ");
    assert(" "@ =~= seq![' ']);
}

/// Nothing that was said is lost, and the order stays: the transcript of segments that
/// come in two parts is that of the first part, a single space, and that of the second,
/// or the one alone where the other is empty.
pub proof fn law_transcript_keeps_everything(first: Seq<Seq<char>>, second: Seq<Seq<char>>)
    ensures
        transcript(first + second) == spaced(transcript(first), transcript(second)),
    decreases second.len(),
{
    lemma_space();
    if second.len() == 0 {
        assert(first + second =~= first);
    } else {
        let shorter = second.drop_last();
        let last = second.last();
        law_transcript_keeps_everything(first, shorter);
        assert((first + second).drop_last() =~= first + shorter);
        assert((first + second).last() == last);
        if !is_blank(last) {
            crate::text::law_trim(last);
            assert(trimmed(last).len() > 0);
            assert(transcript(first + second) =~= spaced(transcript(first), transcript(second)));
        }
    }
}

/// The transcript of one segment is the segment without the whitespace around it, unless
/// it is the mark for a stretch without speech, in capitals or small letters.
pub proof fn law_transcript_of_one_segment(segment: Seq<char>)
    ensures
        transcript(seq![segment]) == if ascii_lowered(trimmed(segment)) == "[blank_audio]"@ {
            Seq::<char>::empty()
        } else {
            trimmed(segment)
        },
{
    let all = seq![segment];
    assert(all.drop_last() =~= Seq::<Seq<char>>::empty());
    assert(transcript(all.drop_last()) =~= Seq::<char>::empty());
    lemma_blank_mark();
    if trimmed(segment).len() == 0 {
        assert(trimmed(segment) =~= Seq::<char>::empty());
    }
}

proof fn lemma_blank_mark()
    ensures
        ascii_lowered(BLANK_AUDIO@) == "[blank_audio]"@,
{
    reveal_strlit("[BLANK_AUDIO]");
    reveal_strlit("[blank_audio]");
    assert(ascii_lowered(BLANK_AUDIO@) =~= "[blank_audio]"@);
}

/// Every segment that holds speech stands in the transcript, without the whitespace
/// around it.
pub proof fn law_every_segment_is_in_the_transcript(segments: Seq<Seq<char>>, i: int)
    requires
        0 <= i < segments.len(),
        ascii_lowered(trimmed(segments[i])) != "[blank_audio]"@,
    ensures
        crate::text::contains_text(transcript(segments), trimmed(segments[i])),
{
    let before = segments.take(i);
    let this = seq![segments[i]];
    let after = segments.skip(i + 1);
    assert(segments =~= before + this + after);
    law_transcript_keeps_everything(before + this, after);
    law_transcript_keeps_everything(before, this);
    law_transcript_of_one_segment(segments[i]);
    let a = transcript(before);
    let t = trimmed(segments[i]);
    let z = transcript(after);
    let left = if a.len() == 0 || t.len() == 0 {
        if t.len() == 0 {
            Seq::<char>::empty()
        } else {
            a
        }
    } else {
        a + seq![' ']
    };
    let whole = transcript(segments);
    let right = whole.skip((left.len() + t.len()) as int);
    assert(whole =~= left + t + right);
    crate::text::law_contains_what_it_is_made_of(left, t, right);
}

} // verus!
