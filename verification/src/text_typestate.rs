//! Typestate dispatch for the text-statistics scanner: the state is part of
//! the machine value's type, so each typed machine only offers the
//! operations of its own state, and an illegal transition has no
//! constructor. Because the concrete successor type varies per character,
//! [`TypedTextMachine`] wraps the reachable typed machines in one sum so
//! the driver can hold a single variable across a scan.

use vstd::prelude::*;

use crate::driver::Machine;
use crate::driver::can_run;
use crate::driver::run;
use crate::driver::scan;
use crate::text_table::TextState;
use crate::text_table::TextStats;
use crate::text_table::is_digit_char;
use crate::text_table::is_word_char;
use crate::text_table::text_next;
use crate::text_table::text_stats_step;
use crate::text_tagged::stats_headroom;

verus! {

/// The scanner between tokens; also how a scan begins.
#[derive(Debug, Clone, Copy, PartialEq, Eq, Structural)]
pub struct WhitespaceMachine {
    pub stats: TextStats,
}

/// The scanner inside a run of alphabetic characters.
#[derive(Debug, Clone, Copy, PartialEq, Eq, Structural)]
pub struct WordMachine {
    pub stats: TextStats,
}

/// The scanner inside a run of decimal digits.
#[derive(Debug, Clone, Copy, PartialEq, Eq, Structural)]
pub struct NumberMachine {
    pub stats: TextStats,
}

/// The sum of all reachable typed text machines.
#[derive(Debug, Clone, Copy, PartialEq, Eq, Structural)]
pub enum TypedTextMachine {
    Whitespace(WhitespaceMachine),
    Word(WordMachine),
    Number(NumberMachine),
}

/// The typed machine for a given state and accumulator.
pub open spec fn typed_text_for(s: TextState, acc: TextStats) -> TypedTextMachine {
    match s {
        TextState::Whitespace => TypedTextMachine::Whitespace(WhitespaceMachine { stats: acc }),
        TextState::InWord => TypedTextMachine::Word(WordMachine { stats: acc }),
        TextState::InNumber => TypedTextMachine::Number(NumberMachine { stats: acc }),
    }
}

impl WhitespaceMachine {
    /// Consume one character between tokens: a letter opens a word (counted
    /// now), a digit opens a number (counted now), a newline counts a line.
    pub fn next_char(self, c: char) -> (m: TypedTextMachine)
        requires
            stats_headroom(self.stats),
        ensures
            m == typed_text_for(
                text_next(TextState::Whitespace, c),
                text_stats_step(TextState::Whitespace, c, self.stats),
            ),
    {
        if is_word_char(c) {
            TypedTextMachine::Word(
                WordMachine {
                    stats: TextStats { word_count: self.stats.word_count + 1, ..self.stats },
                },
            )
        } else if is_digit_char(c) {
            TypedTextMachine::Number(
                NumberMachine {
                    stats: TextStats { number_count: self.stats.number_count + 1, ..self.stats },
                },
            )
        } else if c == '\n' {
            TypedTextMachine::Whitespace(
                WhitespaceMachine {
                    stats: TextStats { line_count: self.stats.line_count + 1, ..self.stats },
                },
            )
        } else {
            TypedTextMachine::Whitespace(self)
        }
    }
}

impl WordMachine {
    /// Consume one character inside a word: a letter stays in the word,
    /// anything else ends it, a newline also counting a line.
    pub fn next_char(self, c: char) -> (m: TypedTextMachine)
        requires
            stats_headroom(self.stats),
        ensures
            m == typed_text_for(
                text_next(TextState::InWord, c),
                text_stats_step(TextState::InWord, c, self.stats),
            ),
    {
        if is_word_char(c) {
            TypedTextMachine::Word(self)
        } else if c == '\n' {
            TypedTextMachine::Whitespace(
                WhitespaceMachine {
                    stats: TextStats { line_count: self.stats.line_count + 1, ..self.stats },
                },
            )
        } else {
            TypedTextMachine::Whitespace(WhitespaceMachine { stats: self.stats })
        }
    }
}

impl NumberMachine {
    /// Consume one character inside a number: a digit stays in the number,
    /// anything else ends it, a newline also counting a line.
    pub fn next_char(self, c: char) -> (m: TypedTextMachine)
        requires
            stats_headroom(self.stats),
        ensures
            m == typed_text_for(
                text_next(TextState::InNumber, c),
                text_stats_step(TextState::InNumber, c, self.stats),
            ),
    {
        if is_digit_char(c) {
            TypedTextMachine::Number(self)
        } else if c == '\n' {
            TypedTextMachine::Whitespace(
                WhitespaceMachine {
                    stats: TextStats { line_count: self.stats.line_count + 1, ..self.stats },
                },
            )
        } else {
            TypedTextMachine::Whitespace(WhitespaceMachine { stats: self.stats })
        }
    }
}

impl TypedTextMachine {
    /// The state encoded in the machine's variant.
    pub open spec fn state_tag(self) -> TextState {
        match self {
            TypedTextMachine::Whitespace(_) => TextState::Whitespace,
            TypedTextMachine::Word(_) => TextState::InWord,
            TypedTextMachine::Number(_) => TextState::InNumber,
        }
    }

    /// The accumulator carried by the current typed machine.
    pub open spec fn stats(self) -> TextStats {
        match self {
            TypedTextMachine::Whitespace(m) => m.stats,
            TypedTextMachine::Word(m) => m.stats,
            TypedTextMachine::Number(m) => m.stats,
        }
    }

    /// The machine every scan starts from: typed `Whitespace`, zero counts.
    pub open spec fn spec_start() -> TypedTextMachine {
        TypedTextMachine::Whitespace(WhitespaceMachine { stats: TextStats::spec_zero() })
    }

    pub fn start() -> (m: TypedTextMachine)
        ensures
            m == TypedTextMachine::spec_start(),
    {
        TypedTextMachine::Whitespace(WhitespaceMachine { stats: TextStats::zero() })
    }
}

impl Machine for TypedTextMachine {
    type Symbol = char;

    type Acc = TextStats;

    open spec fn can_advance(self, c: char) -> bool {
        stats_headroom(self.stats())
    }

    open spec fn step(self, c: char) -> TypedTextMachine {
        typed_text_for(
            text_next(self.state_tag(), c),
            text_stats_step(self.state_tag(), c, self.stats()),
        )
    }

    open spec fn acc(self) -> TextStats {
        self.stats()
    }

    fn advance(self, c: char) -> (next: TypedTextMachine) {
        match self {
            TypedTextMachine::Whitespace(m) => m.next_char(c),
            TypedTextMachine::Word(m) => m.next_char(c),
            TypedTextMachine::Number(m) => m.next_char(c),
        }
    }

    fn extract(&self) -> (r: TextStats) {
        match self {
            TypedTextMachine::Whitespace(m) => m.stats,
            TypedTextMachine::Word(m) => m.stats,
            TypedTextMachine::Number(m) => m.stats,
        }
    }
}

/// A typestate text machine whose counts leave one unit of headroom per
/// remaining input character can consume the whole input.
pub proof fn lemma_typed_text_can_run(m: TypedTextMachine, input: Seq<char>)
    requires
        m.stats().word_count + input.len() <= u64::MAX,
        m.stats().line_count + input.len() <= u64::MAX,
        m.stats().number_count + input.len() <= u64::MAX,
    ensures
        can_run(m, input),
    decreases input.len(),
{
    if input.len() > 0 {
        lemma_typed_text_can_run(m.step(input[0]), input.drop_first());
    }
}

/// Count words, lines and numbers of `input` under typestate dispatch,
/// starting from the zero-valued accumulator in `Whitespace`.
pub fn scan_text_typestate(input: &Vec<char>) -> (r: TextStats)
    ensures
        r == run(TypedTextMachine::spec_start(), input@).acc(),
{
    let m = TypedTextMachine::start();
    let n = input.len();
    proof {
        assert(input@.len() == n <= usize::MAX <= u64::MAX);
        lemma_typed_text_can_run(m, input@);
    }
    scan(m, input)
}

} // verus!
