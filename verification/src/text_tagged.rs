//! Tagged-variant dispatch for the text-statistics scanner: the state is
//! the closed tag [`TextState`], and one exhaustive match over the tag
//! applies the transition table.

use vstd::prelude::*;

use crate::driver::Machine;
use crate::driver::can_run;
use crate::driver::run;
use crate::driver::scan;
use crate::text_table::TextState;
use crate::text_table::TextStats;
use crate::text_table::is_digit_char;
use crate::text_table::is_word_char;
use crate::text_table::text_next;
use crate::text_table::text_stats_step;

verus! {

/// The text scanner under tagged-variant dispatch: the state tag paired
/// inline with the accumulator.
#[derive(Debug, Clone, Copy, PartialEq, Eq, Structural)]
pub struct TaggedTextMachine {
    pub state: TextState,
    pub stats: TextStats,
}

/// Whether every count of `acc` leaves room for one more increment.
pub open spec fn stats_headroom(acc: TextStats) -> bool {
    &&& acc.word_count < u64::MAX
    &&& acc.line_count < u64::MAX
    &&& acc.number_count < u64::MAX
}

impl TaggedTextMachine {
    /// The machine every scan starts from: state `Whitespace`, zero counts.
    pub open spec fn spec_start() -> TaggedTextMachine {
        TaggedTextMachine { state: TextState::Whitespace, stats: TextStats::spec_zero() }
    }

    pub fn start() -> (m: TaggedTextMachine)
        ensures
            m == TaggedTextMachine::spec_start(),
    {
        TaggedTextMachine { state: TextState::Whitespace, stats: TextStats::zero() }
    }
}

impl Machine for TaggedTextMachine {
    type Symbol = char;

    type Acc = TextStats;

    open spec fn can_advance(self, c: char) -> bool {
        stats_headroom(self.stats)
    }

    open spec fn step(self, c: char) -> TaggedTextMachine {
        TaggedTextMachine {
            state: text_next(self.state, c),
            stats: text_stats_step(self.state, c, self.stats),
        }
    }

    open spec fn acc(self) -> TextStats {
        self.stats
    }

    fn advance(self, c: char) -> (next: TaggedTextMachine) {
        let mut stats = self.stats;
        let state = match self.state {
            TextState::Whitespace => {
                if is_word_char(c) {
                    stats.word_count = stats.word_count + 1;
                    TextState::InWord
                } else if is_digit_char(c) {
                    stats.number_count = stats.number_count + 1;
                    TextState::InNumber
                } else {
                    if c == '\n' {
                        stats.line_count = stats.line_count + 1;
                    }
                    TextState::Whitespace
                }
            },
            TextState::InWord => {
                if is_word_char(c) {
                    TextState::InWord
                } else {
                    if c == '\n' {
                        stats.line_count = stats.line_count + 1;
                    }
                    TextState::Whitespace
                }
            },
            TextState::InNumber => {
                if is_digit_char(c) {
                    TextState::InNumber
                } else {
                    if c == '\n' {
                        stats.line_count = stats.line_count + 1;
                    }
                    TextState::Whitespace
                }
            },
        };
        TaggedTextMachine { state, stats }
    }

    fn extract(&self) -> (r: TextStats) {
        self.stats
    }
}

/// Each count only ever grows over a scan, and every transition grows it by
/// at most one, so a whole scan grows each count by at most one per input
/// character. The bounds on `m` are the headroom every scan runs under.
pub proof fn lemma_tagged_text_stats_bound(m: TaggedTextMachine, input: Seq<char>)
    requires
        m.stats.word_count + input.len() <= u64::MAX,
        m.stats.line_count + input.len() <= u64::MAX,
        m.stats.number_count + input.len() <= u64::MAX,
    ensures
        m.stats.word_count <= run(m, input).stats.word_count <= m.stats.word_count + input.len(),
        m.stats.line_count <= run(m, input).stats.line_count <= m.stats.line_count + input.len(),
        m.stats.number_count <= run(m, input).stats.number_count <= m.stats.number_count
            + input.len(),
    decreases input.len(),
{
    if input.len() > 0 {
        lemma_tagged_text_stats_bound(m.step(input[0]), input.drop_first());
    }
}

/// A text machine whose counts leave one unit of headroom per remaining
/// input character can consume the whole input. Counts start at zero and a
/// sequence is never longer than `u64::MAX`, so a fresh machine can consume
/// anything.
pub proof fn lemma_tagged_text_can_run(m: TaggedTextMachine, input: Seq<char>)
    requires
        m.stats.word_count + input.len() <= u64::MAX,
        m.stats.line_count + input.len() <= u64::MAX,
        m.stats.number_count + input.len() <= u64::MAX,
    ensures
        can_run(m, input),
    decreases input.len(),
{
    if input.len() > 0 {
        lemma_tagged_text_can_run(m.step(input[0]), input.drop_first());
    }
}

/// Count words, lines and numbers of `input` under tagged-variant dispatch,
/// starting from the zero-valued accumulator in `Whitespace`.
pub fn scan_text_tagged(input: &Vec<char>) -> (r: TextStats)
    ensures
        r == run(TaggedTextMachine::spec_start(), input@).acc(),
{
    let m = TaggedTextMachine::start();
    let n = input.len();
    proof {
        assert(input@.len() == n <= usize::MAX <= u64::MAX);
        lemma_tagged_text_can_run(m, input@);
    }
    scan(m, input)
}

} // verus!
