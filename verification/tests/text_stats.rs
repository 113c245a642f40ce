use fsm_engine::text_table::TextStats;
use fsm_engine::text_tagged::scan_text_tagged;

fn chars(s: &str) -> Vec<char> {
    s.chars().collect()
}

fn stats(word_count: u64, line_count: u64, number_count: u64) -> TextStats {
    TextStats { word_count, line_count, number_count }
}

#[test]
fn canonical_table_example() {
    assert_eq!(scan_text_tagged(&chars("ab 12\ncd")), stats(2, 1, 1));
}

#[test]
fn empty_input_yields_zero_stats() {
    assert_eq!(scan_text_tagged(&chars("")), stats(0, 0, 0));
}

#[test]
fn newlines_only() {
    assert_eq!(scan_text_tagged(&chars("\n\n\n")), stats(0, 3, 0));
}

#[test]
fn word_counted_on_first_character() {
    assert_eq!(scan_text_tagged(&chars("word")), stats(1, 0, 0));
    assert_eq!(scan_text_tagged(&chars("two words")), stats(2, 0, 0));
}

#[test]
fn number_counted_on_first_digit() {
    assert_eq!(scan_text_tagged(&chars("123")), stats(0, 0, 1));
    assert_eq!(scan_text_tagged(&chars("4 5 6")), stats(0, 0, 3));
}

#[test]
fn digit_ending_a_word_returns_to_whitespace_uncounted() {
    assert_eq!(scan_text_tagged(&chars("ab1")), stats(1, 0, 0));
    assert_eq!(scan_text_tagged(&chars("ab12")), stats(1, 0, 1));
}

#[test]
fn letter_ending_a_number_returns_to_whitespace_uncounted() {
    assert_eq!(scan_text_tagged(&chars("12a")), stats(0, 0, 1));
    assert_eq!(scan_text_tagged(&chars("12ab")), stats(1, 0, 1));
}

#[test]
fn newline_ends_tokens_and_counts_from_any_state() {
    assert_eq!(scan_text_tagged(&chars("ab\ncd")), stats(2, 1, 0));
    assert_eq!(scan_text_tagged(&chars("12\n34")), stats(0, 1, 2));
    assert_eq!(scan_text_tagged(&chars(" \n ")), stats(0, 1, 0));
}

#[test]
fn unicode_letters_count_as_words() {
    assert_eq!(scan_text_tagged(&chars("héllo wörld")), stats(2, 0, 0));
    assert_eq!(scan_text_tagged(&chars("日本語")), stats(1, 0, 0));
}

#[test]
fn punctuation_separates_tokens_silently() {
    assert_eq!(scan_text_tagged(&chars("a,b;c")), stats(3, 0, 0));
    assert_eq!(scan_text_tagged(&chars("1.5")), stats(0, 0, 2));
}
