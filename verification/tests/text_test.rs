use neuma::ax::{read_context, utf8_buffer_size};
use neuma::local_cleanup::{
    cleanup_prompt, prompt_fits, Generation, Next, MAX_OUTPUT_TOKENS,
};
use neuma::text::{
    contains, cut_to_sentences, is_whitespace, number, same_ignoring_ascii_case, trim,
    trim_trailing,
};
use neuma::transcribe::join_segments;

#[test]
fn whitespace_is_that_of_unicode() {
    for c in '\0'..=char::MAX {
        assert_eq!(is_whitespace(c), c.is_whitespace(), "{:?}", c);
    }
}

#[test]
fn trimming_is_that_of_strings() {
    for s in ["", " ", "a", " a b\t", "\u{a0}x\u{3000}", "\n\n", "é ", " \u{200b} "] {
        assert_eq!(trim(s), s.trim());
        assert_eq!(trim(trim(s)), trim(s));
    }
}

#[test]
fn trailing_characters_go() {
    assert_eq!(trim_trailing("http://x//", '/'), "http://x");
    assert_eq!(trim_trailing("///", '/'), "");
    assert_eq!(trim_trailing("/é", '/'), "/é");
}

#[test]
fn case_of_ascii_letters_is_ignored() {
    assert!(same_ignoring_ascii_case("[Blank_Audio]", "[BLANK_AUDIO]"));
    assert!(!same_ignoring_ascii_case("Ä", "ä"));
    assert!(!same_ignoring_ascii_case("a", "ab"));
    assert!(!same_ignoring_ascii_case("@", "`"));
}

#[test]
fn stretches_are_found() {
    assert!(contains("x<|eot_id|>y", "<|eot_id|>"));
    assert!(!contains("<|eot_id|", "<|eot_id|>"));
    assert!(contains("", ""));
    assert!(contains("aaab", "ab"));
}

#[test]
fn texts_are_cut_behind_sentences() {
    assert_eq!(cut_to_sentences("One. Two! Thr"), "One. Two!");
    assert_eq!(cut_to_sentences("é? ü"), "é?");
    assert_eq!(cut_to_sentences("- a\n- b"), "- a\n");
    assert_eq!(cut_to_sentences("no end"), "no end");
    assert_eq!(cut_to_sentences(""), "");
}

#[test]
fn numbers_are_decimal() {
    for n in [0, 7, 10, 401, 11434, u64::MAX] {
        assert_eq!(number(n), n.to_string());
    }
}

fn segments(parts: &[&str]) -> Vec<String> {
    parts.iter().map(|p| p.to_string()).collect()
}

#[test]
fn segments_are_joined() {
    assert_eq!(join_segments(&segments(&[" Hello.", "How are you? "])), "Hello. How are you?");
    assert_eq!(join_segments(&segments(&[" a", "[BLANK_AUDIO]", " [blank_audio] ", "", "b"])), "a b");
    assert_eq!(join_segments(&segments(&["[BLANK_AUDIO]", "  "])), "");
    assert_eq!(join_segments(&segments(&[])), "");
    assert_eq!(join_segments(&segments(&["[BLANK_AUDIO] x"])), "[BLANK_AUDIO] x");
}

#[test]
fn context_ends_at_the_cursor() {
    assert_eq!(read_context("héllo wörld", Some(5), 3), "llo");
    assert_eq!(read_context("héllo", Some(2), 10), "hé");
    assert_eq!(read_context("héllo", Some(0), 10), "");
    assert_eq!(read_context("héllo", Some(99), 2), "lo");
    assert_eq!(read_context("héllo", Some(-1), 2), "lo");
    assert_eq!(read_context("héllo", None, 3), "llo");
    assert_eq!(read_context("", None, 3), "");
}

#[test]
fn cursor_counts_utf16_units() {
    // The first character takes two units, so that the cursor stands behind the `a`.
    assert_eq!(read_context("\u{1F600}ab", Some(3), 10), "\u{1F600}a");
    assert_eq!(read_context("\u{1F600}ab", Some(2), 10), "\u{1F600}");
    assert_eq!(read_context("\u{1F600}ab", Some(1), 10), "");
    assert_eq!(read_context("\u{1F600}ab", Some(4), 10), "\u{1F600}ab");
    assert_eq!(read_context("\u{1F600}ab", Some(5), 1), "b");
    assert_eq!(read_context("\u{FFFF}\u{10000}c", Some(3), 1), "\u{10000}");
}

#[test]
fn buffers_hold_any_text() {
    assert_eq!(utf8_buffer_size(0), 1);
    assert_eq!(utf8_buffer_size(12), 49);
}

#[test]
fn local_prompt_holds_text_and_context() {
    let bare = cleanup_prompt("um hello", None);
    assert!(bare.starts_with("<|begin_of_text|><|start_header_id|>system<|end_header_id|>\n\nYou are"));
    assert!(bare.ends_with(
        "- Do not add, infer, or expand on anything not spoken- Output only the cleaned text, \
         nothing else<|eot_id|><|start_header_id|>user<|end_header_id|>\n\num hello<|eot_id|>\
         <|start_header_id|>assistant<|end_header_id|>\n\n"
    ));
    assert_eq!(cleanup_prompt("um hello", Some(" \n")), bare);
    assert!(cleanup_prompt("x", Some(" Dear Ada ")).contains(
        "not spoken\n- If any names or terms in the following document context match phonetically \
         with words in the transcript, use their exact spelling:\nDocument context (text before \
         cursor):\nDear Ada\n- Output only"
    ));
}

#[test]
fn long_prompts_do_not_fit() {
    assert!(prompt_fits(1_648));
    assert!(!prompt_fits(1_649));
    assert!(!prompt_fits(usize::MAX));
    match Generation::begin("raw text", 1_649) {
        Err(raw) => assert_eq!(raw, "raw text"),
        Ok(_) => panic!("fits"),
    }
}

#[test]
fn answers_are_collected() {
    let mut g = Generation::start(10);
    assert!(g.accept(Some(" Hello")) == Next::Decode { position: 10 });
    assert!(g.accept(Some(" world. ")) == Next::Decode { position: 11 });
    assert!(g.accept(None) == Next::Finished);
    assert_eq!(g.finish(), "Hello world.");
}

#[test]
fn end_of_turn_ends_the_answer() {
    let mut g = Generation::start(0);
    g.accept(Some("Hi"));
    assert!(g.accept(Some("x<|eot_id|>")) == Next::Finished);
    assert_eq!(g.finish(), "Hi");
}

#[test]
fn long_answers_are_cut() {
    let mut g = Generation::start(1);
    assert!(g.accept(Some("Done. ")) == Next::Decode { position: 1 });
    for i in 1..MAX_OUTPUT_TOKENS {
        assert!(g.accept(Some("a ")) == Next::Decode { position: 1 + i as i32 });
    }
    assert!(g.accept(Some("more")) == Next::Finished);
    assert_eq!(g.finish(), "Done.");
}
