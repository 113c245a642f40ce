//! Dynamic-interface dispatch for the text-statistics scanner: each state
//! is an independent object implementing the shared capability
//! [`TextBehavior`], and the machine holds an opaque [`TextHandle`] that it
//! replaces with whatever the current state's `on_char` returns.
//!
//! The handle is owned exclusively by the machine: it moves into `on_char`
//! and a fresh handle moves out, never both existing validly at once.

use vstd::prelude::*;

use crate::driver::Machine;
use crate::driver::can_run;
use crate::driver::run;
use crate::driver::scan;
use crate::text_table::TextState;
use crate::text_table::TextStats;
use crate::text_table::is_digit_char;
use crate::text_table::is_word_char;
use crate::text_table::text_next;
use crate::text_table::text_stats_step;
use crate::text_tagged::stats_headroom;

verus! {

/// The state object for `Whitespace`.
#[derive(Debug)]
pub struct WhitespaceState;

/// The state object for `InWord`.
#[derive(Debug)]
pub struct InWordState;

/// The state object for `InNumber`.
#[derive(Debug)]
pub struct InNumberState;

/// The opaque handle the machine holds: one state object at a time.
#[derive(Debug)]
pub enum TextHandle {
    Whitespace(WhitespaceState),
    InWord(InWordState),
    InNumber(InNumberState),
}

impl TextHandle {
    /// The state a handle stands for.
    pub open spec fn tag(self) -> TextState {
        match self {
            TextHandle::Whitespace(_) => TextState::Whitespace,
            TextHandle::InWord(_) => TextState::InWord,
            TextHandle::InNumber(_) => TextState::InNumber,
        }
    }
}

/// The handle that stands for a given state.
pub open spec fn handle_for(s: TextState) -> TextHandle {
    match s {
        TextState::Whitespace => TextHandle::Whitespace(WhitespaceState),
        TextState::InWord => TextHandle::InWord(InWordState),
        TextState::InNumber => TextHandle::InNumber(InNumberState),
    }
}

/// The capability every text state object offers: consume one character,
/// update the shared accumulator, and hand back the successor's handle.
/// Every implementation conforms to the canonical transition table.
pub trait TextBehavior: Sized {
    /// The state this object stands for.
    spec fn tag(self) -> TextState;

    /// Consume one character in this state.
    fn on_char(self, c: char, stats: &mut TextStats) -> (next: TextHandle)
        requires
            stats_headroom(*old(stats)),
        ensures
            next == handle_for(text_next(self.tag(), c)),
            *final(stats) == text_stats_step(self.tag(), c, *old(stats)),
    ;
}

impl TextBehavior for WhitespaceState {
    open spec fn tag(self) -> TextState {
        TextState::Whitespace
    }

    fn on_char(self, c: char, stats: &mut TextStats) -> (next: TextHandle) {
        if is_word_char(c) {
            *stats = TextStats { word_count: stats.word_count + 1, ..*stats };
            TextHandle::InWord(InWordState)
        } else if is_digit_char(c) {
            *stats = TextStats { number_count: stats.number_count + 1, ..*stats };
            TextHandle::InNumber(InNumberState)
        } else {
            if c == '\n' {
                *stats = TextStats { line_count: stats.line_count + 1, ..*stats };
            }
            TextHandle::Whitespace(WhitespaceState)
        }
    }
}

impl TextBehavior for InWordState {
    open spec fn tag(self) -> TextState {
        TextState::InWord
    }

    fn on_char(self, c: char, stats: &mut TextStats) -> (next: TextHandle) {
        if is_word_char(c) {
            TextHandle::InWord(InWordState)
        } else {
            if c == '\n' {
                *stats = TextStats { line_count: stats.line_count + 1, ..*stats };
            }
            TextHandle::Whitespace(WhitespaceState)
        }
    }
}

impl TextBehavior for InNumberState {
    open spec fn tag(self) -> TextState {
        TextState::InNumber
    }

    fn on_char(self, c: char, stats: &mut TextStats) -> (next: TextHandle) {
        if is_digit_char(c) {
            TextHandle::InNumber(InNumberState)
        } else {
            if c == '\n' {
                *stats = TextStats { line_count: stats.line_count + 1, ..*stats };
            }
            TextHandle::Whitespace(WhitespaceState)
        }
    }
}

/// The text scanner under dynamic-interface dispatch: a state handle beside
/// the shared accumulator.
#[derive(Debug)]
pub struct DynamicTextMachine {
    pub handle: TextHandle,
    pub stats: TextStats,
}

impl DynamicTextMachine {
    /// The machine every scan starts from: the `Whitespace` handle, zero
    /// counts.
    pub open spec fn spec_start() -> DynamicTextMachine {
        DynamicTextMachine {
            handle: TextHandle::Whitespace(WhitespaceState),
            stats: TextStats::spec_zero(),
        }
    }

    pub fn start() -> (m: DynamicTextMachine)
        ensures
            m == DynamicTextMachine::spec_start(),
    {
        DynamicTextMachine {
            handle: TextHandle::Whitespace(WhitespaceState),
            stats: TextStats::zero(),
        }
    }
}

impl Machine for DynamicTextMachine {
    type Symbol = char;

    type Acc = TextStats;

    open spec fn can_advance(self, c: char) -> bool {
        stats_headroom(self.stats)
    }

    open spec fn step(self, c: char) -> DynamicTextMachine {
        DynamicTextMachine {
            handle: handle_for(text_next(self.handle.tag(), c)),
            stats: text_stats_step(self.handle.tag(), c, self.stats),
        }
    }

    open spec fn acc(self) -> TextStats {
        self.stats
    }

    fn advance(self, c: char) -> (next: DynamicTextMachine) {
        let mut stats = self.stats;
        let handle = match self.handle {
            TextHandle::Whitespace(st) => st.on_char(c, &mut stats),
            TextHandle::InWord(st) => st.on_char(c, &mut stats),
            TextHandle::InNumber(st) => st.on_char(c, &mut stats),
        };
        DynamicTextMachine { handle, stats }
    }

    fn extract(&self) -> (r: TextStats) {
        self.stats
    }
}

/// A dynamic-dispatch text machine whose counts leave one unit of headroom
/// per remaining input character can consume the whole input.
pub proof fn lemma_dynamic_text_can_run(m: DynamicTextMachine, input: Seq<char>)
    requires
        m.stats.word_count + input.len() <= u64::MAX,
        m.stats.line_count + input.len() <= u64::MAX,
        m.stats.number_count + input.len() <= u64::MAX,
    ensures
        can_run(m, input),
    decreases input.len(),
{
    if input.len() > 0 {
        lemma_dynamic_text_can_run(m.step(input[0]), input.drop_first());
    }
}

/// Count words, lines and numbers of `input` under dynamic-interface
/// dispatch, starting from the zero-valued accumulator in `Whitespace`.
pub fn scan_text_dynamic(input: &Vec<char>) -> (r: TextStats)
    ensures
        r == run(DynamicTextMachine::spec_start(), input@).acc(),
{
    let m = DynamicTextMachine::start();
    let n = input.len();
    proof {
        assert(input@.len() == n <= usize::MAX <= u64::MAX);
        lemma_dynamic_text_can_run(m, input@);
    }
    scan(m, input)
}

} // verus!
