//! Cleanup by a language model in this process.

use vstd::prelude::*;
use crate::cleanup::{context_section, context_text, opt_text};
use crate::text::{contains, contains_text, cut_to_sentences, join2, trim, trimmed, whole_sentences};

verus! {

/// How many tokens an answer may have before it is cut.
pub const MAX_OUTPUT_TOKENS: usize = 400;

/// How many tokens a prompt and its answer may have together.
pub const N_CTX: u32 = 2048;

/// What ends a turn of the conversation.
pub const END_OF_TURN: &'static str = "<|eot_id|>";

/// The prompt up to the text before the cursor.
pub const PROMPT_RULES: &'static str = "<|begin_of_text|><|start_header_id|>system<|end_header_id|>\n\n\
You are a voice dictation cleanup engine. Transform raw speech transcription into clean, natural written text.\n\
\n\
Rules:\n\
- Remove filler words (um, uh, like, you know, basically, literally)\n\
- Fix punctuation and capitalization naturally\n\
- Convert spoken list cues (\"one... two...\" or \"first... second...\") into a newline-separated list using \"- \" bullets\n\
- Convert \"new line\" or \"new paragraph\" into actual line breaks\n\
- Convert spoken punctuation (\"exclamation point\", \"question mark\", \"comma\", \"period\") into the actual symbol\n\
- Do not add, infer, or expand on anything not spoken";

/// The prompt between the text before the cursor and the transcript.
pub const PROMPT_USER: &'static str = "- Output only the cleaned text, nothing else<|eot_id|>\
<|start_header_id|>user<|end_header_id|>\n\n";

/// The prompt after the transcript.
pub const PROMPT_ASSISTANT: &'static str = "<|eot_id|>\
<|start_header_id|>assistant<|end_header_id|>\n\n";

/// The prompt that asks the model to clean `text`.
pub open spec fn prompt_text(text: Seq<char>, context: Option<Seq<char>>) -> Seq<char> {
    PROMPT_RULES@ + context_text(context) + PROMPT_USER@ + text + PROMPT_ASSISTANT@
}

/// The prompt that asks the model to clean `text`, given the text before the cursor.
pub fn cleanup_prompt(text: &str, context: Option<&str>) -> (r: String)
    ensures
        r@ == prompt_text(text@, opt_text(context)),
{
    join2(PROMPT_RULES, context_section(context).as_str()).concat(PROMPT_USER).concat(text).concat(
        PROMPT_ASSISTANT,
    )
}

/// A prompt of this many tokens leaves room for an answer.
pub open spec fn fits(n_prompt: int) -> bool {
    n_prompt + MAX_OUTPUT_TOKENS <= N_CTX
}

/// Tells whether a prompt of this many tokens leaves room for an answer. Where it
/// does not, the transcript is used as it is.
pub fn prompt_fits(n_prompt: usize) -> (r: bool)
    ensures
        r == fits(n_prompt as int),
{
    n_prompt <= N_CTX as usize - MAX_OUTPUT_TOKENS
}

/// What is done after a token.
#[derive(Clone, Copy, PartialEq, Eq, Structural)]
pub enum Next {
    /// Feed the token back at this position, and sample the next.
    Decode { position: i32 },
    /// The answer is complete.
    Finished,
}

/// An answer in the making.
pub struct Generation {
    n_prompt: usize,
    generated: usize,
    output: String,
}

/// An answer in the making.
pub struct GenerationView {
    /// How many tokens the prompt has.
    pub n_prompt: int,
    /// How many tokens of the answer have been fed back.
    pub generated: int,
    /// The text so far.
    pub output: Seq<char>,
}

impl View for Generation {
    type V = GenerationView;

    closed spec fn view(&self) -> GenerationView {
        GenerationView {
            n_prompt: self.n_prompt as int,
            generated: self.generated as int,
            output: self.output@,
        }
    }
}

impl GenerationView {
    /// The prompt fits, and the answer has not outgrown its limit.
    pub open spec fn wf(self) -> bool {
        0 <= self.n_prompt && fits(self.n_prompt) && 0 <= self.generated <= MAX_OUTPUT_TOKENS
    }

    /// What a token does to the answer. `piece` is its text, or nothing for a token
    /// that ends the generation.
    pub open spec fn next(self, piece: Option<Seq<char>>) -> (GenerationView, Next) {
        match piece {
            None => (self, Next::Finished),
            Some(p) => if contains_text(p, END_OF_TURN@) {
                (self, Next::Finished)
            } else if self.generated >= MAX_OUTPUT_TOKENS {
                (
                    GenerationView { output: whole_sentences(self.output + p), ..self },
                    Next::Finished,
                )
            } else {
                (
                    GenerationView {
                        output: self.output + p,
                        generated: self.generated + 1,
                        ..self
                    },
                    Next::Decode { position: (self.n_prompt + self.generated) as i32 },
                )
            },
        }
    }
}

impl Generation {
    /// Begins an answer to a prompt of this many tokens.
    pub fn start(n_prompt: usize) -> (r: Generation)
        requires
            fits(n_prompt as int),
        ensures
            r@ == (GenerationView {
                n_prompt: n_prompt as int,
                generated: 0,
                output: Seq::empty(),
            }),
            r@.wf(),
    {
        Generation { n_prompt, generated: 0, output: String::new() }
    }

    /// Begins the cleanup of `text` with a prompt of this many tokens. Where the
    /// prompt leaves no room for an answer, the text itself is the result.
    pub fn begin(text: &str, n_prompt: usize) -> (r: Result<Generation, String>)
        ensures
            match r {
                Ok(generation) => fits(n_prompt as int) && generation@ == (GenerationView {
                    n_prompt: n_prompt as int,
                    generated: 0,
                    output: Seq::empty(),
                }),
                Err(raw) => !fits(n_prompt as int) && raw@ == text@,
            },
    {
        if prompt_fits(n_prompt) {
            Ok(Self::start(n_prompt))
        } else {
            Err(text.to_owned())
        }
    }

    /// Takes in a token's text, or that the token ends the generation.
    pub fn accept(&mut self, piece: Option<&str>) -> (r: Next)
        requires
            old(self)@.wf(),
        ensures
            (final(self)@, r) == old(self)@.next(opt_text(piece)),
            final(self)@.wf(),
    {
        let text = match piece {
            None => {
                return Next::Finished;
            },
            Some(t) => t,
        };
        if contains(text, END_OF_TURN) {
            return Next::Finished;
        }
        self.output.append(text);
        if self.generated >= MAX_OUTPUT_TOKENS {
            self.output = cut_to_sentences(self.output.as_str()).to_owned();
            return Next::Finished;
        }
        let position = (self.n_prompt + self.generated) as i32;
        self.generated = self.generated + 1;
        Next::Decode { position }
    }

    /// The cleaned text.
    pub fn finish(self) -> (r: String)
        ensures
            r@ == trimmed(self@.output),
    {
        trim(self.output.as_str()).to_owned()
    }
}

// ── Laws ─────────────────────────────────────────────────────────────────────

/// The pieces in one text.
pub open spec fn joined(pieces: Seq<Seq<char>>) -> Seq<char>
    decreases pieces.len(),
{
    if pieces.len() == 0 {
        Seq::empty()
    } else {
        joined(pieces.drop_last()) + pieces.last()
    }
}

/// The answer after these pieces.
pub open spec fn after(v: GenerationView, pieces: Seq<Seq<char>>) -> GenerationView
    decreases pieces.len(),
{
    if pieces.len() == 0 {
        v
    } else {
        after(v, pieces.drop_last()).next(Some(pieces.last())).0
    }
}

/// Each of the pieces is fed back, none ends the answer.
pub open spec fn all_fed_back(v: GenerationView, pieces: Seq<Seq<char>>) -> bool
    decreases pieces.len(),
{
    pieces.len() > 0 ==> all_fed_back(v, pieces.drop_last()) && after(v, pieces.drop_last()).next(
        Some(pieces.last()),
    ).1 is Decode
}

/// As long as an answer goes on, its text is that of its pieces, it has no more
/// than its limit of tokens, and the next token stands right behind them, inside
/// the model's window.
pub proof fn law_answer_is_bounded(n_prompt: int, pieces: Seq<Seq<char>>)
    requires
        0 <= n_prompt,
        fits(n_prompt),
        all_fed_back(
            (GenerationView { n_prompt, generated: 0, output: Seq::empty() }),
            pieces,
        ),
    ensures
        ({
            let v = after(
                (GenerationView { n_prompt, generated: 0, output: Seq::empty() }),
                pieces,
            );
            &&& v.wf()
            &&& v.n_prompt == n_prompt
            &&& v.output == joined(pieces)
            &&& v.generated == pieces.len() <= MAX_OUTPUT_TOKENS
            &&& forall|piece: Option<Seq<char>>|
                #[trigger] v.next(piece).1 matches Next::Decode { position } ==> position
                    == n_prompt + pieces.len() && position < N_CTX
        }),
    decreases pieces.len(),
{
    if pieces.len() > 0 {
        law_answer_is_bounded(n_prompt, pieces.drop_last());
    }
}

/// An answer that reaches its limit is cut behind its last sentence end, where it
/// has one: what is left is the beginning of the text, and ends there.
pub proof fn law_long_answer_ends_with_a_sentence(v: GenerationView, piece: Seq<char>)
    requires
        v.wf(),
        v.generated == MAX_OUTPUT_TOKENS,
        !contains_text(piece, END_OF_TURN@),
    ensures
        ({
            let text = v.output + piece;
            let cut = v.next(Some(piece)).0.output;
            &&& v.next(Some(piece)).1 == Next::Finished
            &&& cut.is_prefix_of(text)
            &&& (exists|i: int| 0 <= i < text.len() && crate::text::ends_sentence(#[trigger] text[i]))
                ==> cut.len() > 0 && crate::text::ends_sentence(cut.last())
        }),
{
    let text = v.output + piece;
    crate::text::lemma_last_sentence_end(text);
    if exists|i: int| 0 <= i < text.len() && crate::text::ends_sentence(#[trigger] text[i]) {
        let i = choose|i: int| 0 <= i < text.len() && crate::text::ends_sentence(#[trigger] text[i]);
        assert(crate::text::last_sentence_end(text) >= i);
        let cut = whole_sentences(text);
        assert(cut.last() == text[crate::text::last_sentence_end(text)]);
    }
}

/// An answer goes on with every piece, until the model ends it, a piece holds the
/// end-of-turn mark, or four hundred tokens have been fed back; what goes on is appended
/// as it is, and what ends it by itself adds nothing.
pub proof fn law_answer_goes_on(v: GenerationView, piece: Option<Seq<char>>)
    requires
        v.wf(),
    ensures
        ({
            let (then, next) = v.next(piece);
            let plain = piece matches Some(p) && !contains_text(p, "<|eot_id|>"@);
            &&& next is Decode <==> plain && v.generated < 400
            &&& next is Decode ==> then.output == v.output + piece->0 && then.generated
                == v.generated + 1
            &&& next matches Next::Decode { position } ==> position == v.n_prompt + v.generated
            &&& !plain ==> then.output == v.output
            &&& plain && v.generated == 400 ==> then.output == whole_sentences(v.output + piece->0)
            &&& then.n_prompt == v.n_prompt
        }),
{
}

/// An answer that the model ends by itself is its pieces, all of them, one after the
/// other: as long as there are no more of them than the limit and none holds the
/// end-of-turn mark, each is fed back at the place after the one before.
pub proof fn law_answer_is_whole(n_prompt: int, pieces: Seq<Seq<char>>)
    requires
        0 <= n_prompt <= 1648,
        pieces.len() <= 400,
        forall|i: int|
            0 <= i < pieces.len() ==> !contains_text(#[trigger] pieces[i], "<|eot_id|>"@),
    ensures
        ({
            let start = GenerationView { n_prompt, generated: 0, output: Seq::empty() };
            let v = after(start, pieces);
            &&& start.wf()
            &&& all_fed_back(start, pieces)
            &&& v.output == joined(pieces)
            &&& v.generated == pieces.len()
            &&& v.n_prompt == n_prompt
            &&& v.next(None) == (v, Next::Finished)
        }),
    decreases pieces.len(),
{
    if pieces.len() > 0 {
        let shorter = pieces.drop_last();
        assert forall|i: int| 0 <= i < shorter.len() implies !contains_text(
            #[trigger] shorter[i],
            "<|eot_id|>"@,
        ) by {
            assert(shorter[i] == pieces[i]);
        }
        law_answer_is_whole(n_prompt, shorter);
        let start = GenerationView { n_prompt, generated: 0, output: Seq::empty() };
        let v = after(start, shorter);
        assert(!contains_text(pieces[pieces.len() - 1], "<|eot_id|>"@));
        law_answer_goes_on(v, Some(pieces.last()));
        assert(after(start, pieces) == v.next(Some(pieces.last())).0);
    }
}

/// Joining texts loses nothing: a further text comes to stand behind all before it.
pub proof fn law_joined(pieces: Seq<Seq<char>>, more: Seq<Seq<char>>)
    ensures
        joined(pieces + more) == joined(pieces) + joined(more),
        pieces.len() == 1 ==> joined(pieces) == pieces[0],
    decreases more.len(),
{
    if more.len() == 0 {
        assert(pieces + more =~= pieces);
        assert(joined(pieces) + joined(more) =~= joined(pieces));
    } else {
        law_joined(pieces, more.drop_last());
        assert((pieces + more).drop_last() =~= pieces + more.drop_last());
        assert(joined(pieces + more) =~= joined(pieces) + joined(more));
    }
    if pieces.len() == 1 {
        assert(pieces.drop_last() =~= Seq::<Seq<char>>::empty());
        assert(joined(pieces.drop_last()) =~= Seq::<char>::empty());
        assert(joined(pieces) =~= pieces[0]);
    }
}

/// A prompt leaves room for an answer where it has no more than 1648 tokens.
pub proof fn law_room_for_an_answer(n_prompt: int)
    ensures
        fits(n_prompt) <==> n_prompt + 400 <= 2048,
{
}

/// The transcript goes into the prompt as it is, between a part that depends on the text
/// before the cursor alone and one that is always the same; whitespace around the text
/// before the cursor does not matter, and where there is nothing else it is as if there
/// were none.
pub proof fn law_prompt_holds_the_transcript(
    text: Seq<char>,
    other: Seq<char>,
    context: Option<Seq<char>>,
)
    ensures
        ({
            let k = prompt_text(Seq::empty(), context).len() - PROMPT_ASSISTANT@.len();
            &&& 0 <= k
            &&& prompt_text(text, context) == prompt_text(other, context).take(k) + text
                + PROMPT_ASSISTANT@
        }),
        PROMPT_RULES@.is_prefix_of(prompt_text(text, context)),
        prompt_text(text, context).len() == prompt_text(text, None).len() + context_text(
            context,
        ).len(),
        context matches Some(c) ==> {
            &&& prompt_text(text, context) == prompt_text(text, Some(trimmed(c)))
            &&& trimmed(c).len() == 0 ==> prompt_text(text, context) == prompt_text(text, None)
            &&& contains_text(prompt_text(text, context), trimmed(c))
        },
{
    let a = PROMPT_RULES@ + context_text(context) + PROMPT_USER@;
    assert(prompt_text(Seq::empty(), context) =~= a + PROMPT_ASSISTANT@);
    assert(prompt_text(other, context).take(a.len() as int) =~= a);
    assert(prompt_text(text, context) =~= a + text + PROMPT_ASSISTANT@);
    assert(prompt_text(text, context).subrange(0, PROMPT_RULES@.len() as int) =~= PROMPT_RULES@);
    if let Some(c) = context {
        crate::text::law_trim_is_idempotent(c);
        let t = trimmed(c);
        if t.len() == 0 {
            let whole = prompt_text(text, context);
            assert(whole =~= Seq::<char>::empty() + t + whole);
            crate::text::law_contains_what_it_is_made_of(Seq::empty(), t, whole);
        } else {
            let left = PROMPT_RULES@ + crate::cleanup::CONTEXT_RULE@;
            let right = "\n"@ + PROMPT_USER@ + text + PROMPT_ASSISTANT@;
            assert(prompt_text(text, context) =~= left + t + right);
            crate::text::law_contains_what_it_is_made_of(left, t, right);
        }
    }
}

} // verus!
