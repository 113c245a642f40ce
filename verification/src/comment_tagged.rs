//! Tagged-variant dispatch for the block-comment byte counter: the state is
//! the closed tag [`FsmState`], and one exhaustive match over (state, byte)
//! applies the transition table.

use vstd::prelude::*;

use crate::comment_table::CommentCount;
use crate::comment_table::FsmState;
use crate::comment_table::comment_delta;
use crate::comment_table::comment_next;
use crate::driver::Machine;
use crate::driver::can_run;
use crate::driver::run;
use crate::driver::scan;

verus! {

/// The comment automaton under tagged-variant dispatch: the state tag paired
/// inline with the accumulator.
#[derive(Debug, Clone, Copy, PartialEq, Eq, Structural)]
pub struct TaggedCommentMachine {
    pub state: FsmState,
    pub count: CommentCount,
}

impl TaggedCommentMachine {
    /// The machine every scan starts from: state `Code`, zero bytes counted.
    pub open spec fn spec_start() -> TaggedCommentMachine {
        TaggedCommentMachine { state: FsmState::Code, count: CommentCount::spec_zero() }
    }

    pub fn start() -> (m: TaggedCommentMachine)
        ensures
            m == TaggedCommentMachine::spec_start(),
    {
        TaggedCommentMachine { state: FsmState::Code, count: CommentCount::zero() }
    }
}

impl Machine for TaggedCommentMachine {
    type Symbol = u8;

    type Acc = CommentCount;

    open spec fn can_advance(self, b: u8) -> bool {
        self.count.counted_bytes + comment_delta(self.state, b) <= u64::MAX
    }

    open spec fn step(self, b: u8) -> TaggedCommentMachine {
        TaggedCommentMachine {
            state: comment_next(self.state, b),
            count: CommentCount {
                counted_bytes: (self.count.counted_bytes + comment_delta(self.state, b)) as u64,
            },
        }
    }

    open spec fn acc(self) -> CommentCount {
        self.count
    }

    fn advance(self, b: u8) -> (next: TaggedCommentMachine) {
        let (state, delta) = self.state.transition(b);
        TaggedCommentMachine {
            state,
            count: CommentCount { counted_bytes: self.count.counted_bytes + delta },
        }
    }

    fn extract(&self) -> (r: CommentCount) {
        self.count
    }
}

/// The accumulator only ever grows over a scan, and every transition counts
/// at most two bytes, so a whole scan counts at most two bytes per input
/// byte. The bound on `m` is the headroom every scan runs under.
pub proof fn lemma_tagged_comment_count_bound(m: TaggedCommentMachine, input: Seq<u8>)
    requires
        m.count.counted_bytes + 2 * input.len() <= u64::MAX,
    ensures
        m.count.counted_bytes <= run(m, input).count.counted_bytes,
        run(m, input).count.counted_bytes <= m.count.counted_bytes + 2 * input.len(),
    decreases input.len(),
{
    if input.len() > 0 {
        lemma_tagged_comment_count_bound(m.step(input[0]), input.drop_first());
    }
}

/// A comment machine with two bytes of accumulator headroom per remaining
/// input byte can consume the whole input.
pub proof fn lemma_tagged_comment_can_run(m: TaggedCommentMachine, input: Seq<u8>)
    requires
        m.count.counted_bytes + 2 * input.len() <= u64::MAX,
    ensures
        can_run(m, input),
    decreases input.len(),
{
    if input.len() > 0 {
        lemma_tagged_comment_can_run(m.step(input[0]), input.drop_first());
    }
}

/// Count the bytes strictly inside `/* ... */` block comments of `input`
/// under tagged-variant dispatch, starting outside any comment.
///
/// The length bound only keeps the 64-bit byte counter from overflowing; it
/// admits any input that fits in memory on a 64-bit machine.
pub fn scan_comment_tagged(input: &Vec<u8>) -> (r: CommentCount)
    requires
        2 * input@.len() <= u64::MAX,
    ensures
        r == run(TaggedCommentMachine::spec_start(), input@).acc(),
{
    let m = TaggedCommentMachine::start();
    proof {
        lemma_tagged_comment_can_run(m, input@);
    }
    scan(m, input)
}

} // verus!
