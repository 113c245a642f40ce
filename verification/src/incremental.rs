//! Incremental scanning: a machine kept alive across calls, so that an
//! input may arrive in successive chunks instead of one sequence.
//!
//! An empty chunk sequence is valid and leaves the zero-valued accumulator
//! at the start state. No chunk boundary is an implicit symbol: by
//! [`crate::driver::lemma_run_in_chunks`], feeding `a` and then `b` leaves
//! the scanner exactly where feeding `a + b` in one call would, so chunked
//! and one-shot scans yield the same final accumulator; and by
//! [`crate::driver::lemma_can_run_in_chunks`] the chunked scan is
//! admissible exactly when the one-shot scan is.

use vstd::prelude::*;

use crate::comment_table::CommentCount;
use crate::comment_tagged::TaggedCommentMachine;
use crate::comment_tagged::lemma_tagged_comment_can_run;
use crate::driver::Machine;
use crate::driver::run;
use crate::driver::run_machine;
use crate::text_table::TextStats;
use crate::text_tagged::TaggedTextMachine;
use crate::text_tagged::lemma_tagged_text_can_run;

verus! {

/// An incremental text-statistics scan: the machine value survives between
/// chunks, owned exclusively by this scanner.
#[derive(Debug, Clone, Copy, PartialEq, Eq, Structural)]
pub struct TextScanner {
    pub machine: TaggedTextMachine,
}

impl TextScanner {
    /// Begin a scan at the start state with zero counts.
    pub fn new() -> (s: TextScanner)
        ensures
            s.machine == TaggedTextMachine::spec_start(),
    {
        TextScanner { machine: TaggedTextMachine::start() }
    }

    /// Consume one more chunk of input. The bounds only keep the 64-bit
    /// counts from overflowing across chunks.
    pub fn feed(&mut self, chunk: &Vec<char>)
        requires
            old(self).machine.stats.word_count + chunk@.len() <= u64::MAX,
            old(self).machine.stats.line_count + chunk@.len() <= u64::MAX,
            old(self).machine.stats.number_count + chunk@.len() <= u64::MAX,
        ensures
            final(self).machine == run(old(self).machine, chunk@),
    {
        let m = self.machine;
        proof {
            lemma_tagged_text_can_run(m, chunk@);
        }
        *self = TextScanner { machine: run_machine(m, chunk) };
    }

    /// Read the statistics accumulated so far.
    pub fn stats(&self) -> (r: TextStats)
        ensures
            r == self.machine.acc(),
    {
        self.machine.extract()
    }
}

/// An incremental block-comment byte count: the machine value survives
/// between chunks, owned exclusively by this scanner.
#[derive(Debug, Clone, Copy, PartialEq, Eq, Structural)]
pub struct CommentScanner {
    pub machine: TaggedCommentMachine,
}

impl CommentScanner {
    /// Begin a count at the start state with zero bytes counted.
    pub fn new() -> (s: CommentScanner)
        ensures
            s.machine == TaggedCommentMachine::spec_start(),
    {
        CommentScanner { machine: TaggedCommentMachine::start() }
    }

    /// Consume one more chunk of input. The bound only keeps the 64-bit
    /// byte counter from overflowing across chunks.
    pub fn feed(&mut self, chunk: &Vec<u8>)
        requires
            old(self).machine.count.counted_bytes + 2 * chunk@.len() <= u64::MAX,
        ensures
            final(self).machine == run(old(self).machine, chunk@),
    {
        let m = self.machine;
        proof {
            lemma_tagged_comment_can_run(m, chunk@);
        }
        *self = CommentScanner { machine: run_machine(m, chunk) };
    }

    /// Read the byte count accumulated so far.
    pub fn count(&self) -> (r: CommentCount)
        ensures
            r == self.machine.acc(),
    {
        self.machine.extract()
    }
}

} // verus!
