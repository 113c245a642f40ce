//! Transition table of the text-statistics scanner.
//!
//! The automaton reads one Unicode character at a time and counts words,
//! lines and decimal numbers. A word is a maximal run of alphabetic
//! characters, a number a maximal run of ASCII decimal digits; each is
//! counted once, on its first character. A newline always increments the
//! line count and always returns the machine to `Whitespace`.
//!
//! This table is the single canonical semantics of the scanner: every
//! dispatch strategy conforms to it. In particular there is no direct
//! `InWord -> InNumber` or `InNumber -> InWord` transition: a digit that
//! ends a letter run (or a letter that ends a digit run) only returns the
//! machine to `Whitespace` and is itself counted toward nothing, so `"ab1"`
//! holds one word and no number, while `"ab12"` holds one word and one
//! number.

use vstd::prelude::*;

verus! {

/// Whether `c` has the Unicode `Alphabetic` property. The property is a
/// fixed function of the character alone; its table is far too large to
/// restate, so the result only carries this name.
pub uninterp spec fn unicode_alphabetic(c: char) -> bool;

/// Relies on `char::is_alphabetic` of core: true exactly for characters
/// with the Unicode `Alphabetic` property, a function of the character
/// alone, named here by [`unicode_alphabetic`].
pub assume_specification[ char::is_alphabetic ](c: char) -> (r: bool)
    ensures
        r == unicode_alphabetic(c),
;

/// Whether `c` begins or continues a word: the scanner's alphabetic class.
pub open spec fn word_char(c: char) -> bool {
    unicode_alphabetic(c)
}

/// Whether `c` begins or continues a number: an ASCII decimal digit.
pub open spec fn digit_char(c: char) -> bool {
    48 <= c as u32 <= 57
}

/// Decide [`word_char`] for one character.
pub fn is_word_char(c: char) -> (r: bool)
    ensures
        r == word_char(c),
{
    c.is_alphabetic()
}

/// Decide [`digit_char`] for one character.
pub fn is_digit_char(c: char) -> (r: bool)
    ensures
        r == digit_char(c),
{
    let u = c as u32;
    48 <= u && u <= 57
}

/// States of the text-statistics scanner. Exactly one state is active at
/// any time; a scan starts in `Whitespace`.
#[derive(Debug, Clone, Copy, PartialEq, Eq, Structural)]
pub enum TextState {
    /// Between tokens; also the start state.
    Whitespace,
    /// Inside a run of alphabetic characters.
    InWord,
    /// Inside a run of decimal digits.
    InNumber,
}

/// Accumulator of the text-statistics scanner. Each count only ever grows
/// during a scan, and only a transition ever touches it.
#[derive(Debug, Clone, Copy, PartialEq, Eq, Structural)]
pub struct TextStats {
    pub word_count: u64,
    pub line_count: u64,
    pub number_count: u64,
}

impl TextStats {
    /// The zero-valued accumulator every scan starts from.
    pub open spec fn spec_zero() -> TextStats {
        TextStats { word_count: 0, line_count: 0, number_count: 0 }
    }

    pub fn zero() -> (r: TextStats)
        ensures
            r == TextStats::spec_zero(),
    {
        TextStats { word_count: 0, line_count: 0, number_count: 0 }
    }
}

/// Next state of the text scanner on one character, per the canonical
/// ordered decision list: the alphabetic test comes first, then the digit
/// test, and everything else (newline included) leads to `Whitespace`.
pub open spec fn text_next(s: TextState, c: char) -> TextState {
    match s {
        TextState::Whitespace => if word_char(c) {
            TextState::InWord
        } else if digit_char(c) {
            TextState::InNumber
        } else {
            TextState::Whitespace
        },
        TextState::InWord => if word_char(c) {
            TextState::InWord
        } else {
            TextState::Whitespace
        },
        TextState::InNumber => if digit_char(c) {
            TextState::InNumber
        } else {
            TextState::Whitespace
        },
    }
}

/// Whether this transition counts a word: a word is counted on its first
/// character, entering `InWord` from `Whitespace`.
pub open spec fn counts_word(s: TextState, c: char) -> bool {
    s == TextState::Whitespace && word_char(c)
}

/// Whether this transition counts a number: a number is counted on its
/// first character, entering `InNumber` from `Whitespace`.
pub open spec fn counts_number(s: TextState, c: char) -> bool {
    s == TextState::Whitespace && !word_char(c) && digit_char(c)
}

/// Whether this transition counts a line: a newline reached by the decision
/// list counts one line from every state.
pub open spec fn counts_line(s: TextState, c: char) -> bool {
    match s {
        TextState::Whitespace => !word_char(c) && !digit_char(c) && c == '\n',
        TextState::InWord => !word_char(c) && c == '\n',
        TextState::InNumber => !digit_char(c) && c == '\n',
    }
}

/// The accumulator after one transition of the text scanner: at most one of
/// the three counts grows, by one.
pub open spec fn text_stats_step(s: TextState, c: char, acc: TextStats) -> TextStats {
    TextStats {
        word_count: if counts_word(s, c) {
            (acc.word_count + 1) as u64
        } else {
            acc.word_count
        },
        line_count: if counts_line(s, c) {
            (acc.line_count + 1) as u64
        } else {
            acc.line_count
        },
        number_count: if counts_number(s, c) {
            (acc.number_count + 1) as u64
        } else {
            acc.number_count
        },
    }
}

} // verus!
