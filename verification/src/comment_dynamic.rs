//! Dynamic-interface dispatch for the block-comment byte counter: each
//! state is an independent object implementing the shared capability
//! [`CommentBehavior`], and the machine holds an opaque [`CommentHandle`]
//! that it replaces with whatever the current state's `on_byte` returns.

use vstd::prelude::*;

use crate::comment_table::CommentCount;
use crate::comment_table::FsmState;
use crate::comment_table::comment_delta;
use crate::comment_table::comment_next;
use crate::driver::Machine;
use crate::driver::can_run;
use crate::driver::run;
use crate::driver::scan;

verus! {

/// The state object for `Code`.
#[derive(Debug)]
pub struct CodeState;

/// The state object for `Slash`.
#[derive(Debug)]
pub struct SlashState;

/// The state object for `Block`.
#[derive(Debug)]
pub struct BlockState;

/// The state object for `BlockStar`.
#[derive(Debug)]
pub struct BlockStarState;

/// The opaque handle the machine holds: one state object at a time.
#[derive(Debug)]
pub enum CommentHandle {
    Code(CodeState),
    Slash(SlashState),
    Block(BlockState),
    BlockStar(BlockStarState),
}

impl CommentHandle {
    /// The state a handle stands for.
    pub open spec fn tag(self) -> FsmState {
        match self {
            CommentHandle::Code(_) => FsmState::Code,
            CommentHandle::Slash(_) => FsmState::Slash,
            CommentHandle::Block(_) => FsmState::Block,
            CommentHandle::BlockStar(_) => FsmState::BlockStar,
        }
    }
}

/// The handle that stands for a given state.
pub open spec fn comment_handle_for(s: FsmState) -> CommentHandle {
    match s {
        FsmState::Code => CommentHandle::Code(CodeState),
        FsmState::Slash => CommentHandle::Slash(SlashState),
        FsmState::Block => CommentHandle::Block(BlockState),
        FsmState::BlockStar => CommentHandle::BlockStar(BlockStarState),
    }
}

/// The capability every comment state object offers: consume one byte,
/// update the shared accumulator, and hand back the successor's handle.
/// Every implementation conforms to the canonical transition table.
pub trait CommentBehavior: Sized {
    /// The state this object stands for.
    spec fn tag(self) -> FsmState;

    /// Consume one byte in this state.
    fn on_byte(self, b: u8, count: &mut CommentCount) -> (next: CommentHandle)
        requires
            old(count).counted_bytes + comment_delta(self.tag(), b) <= u64::MAX,
        ensures
            next == comment_handle_for(comment_next(self.tag(), b)),
            final(count).counted_bytes == old(count).counted_bytes + comment_delta(
                self.tag(),
                b,
            ),
    ;
}

impl CommentBehavior for CodeState {
    open spec fn tag(self) -> FsmState {
        FsmState::Code
    }

    fn on_byte(self, b: u8, count: &mut CommentCount) -> (next: CommentHandle) {
        if b == 47 {
            CommentHandle::Slash(SlashState)
        } else {
            CommentHandle::Code(CodeState)
        }
    }
}

impl CommentBehavior for SlashState {
    open spec fn tag(self) -> FsmState {
        FsmState::Slash
    }

    fn on_byte(self, b: u8, count: &mut CommentCount) -> (next: CommentHandle) {
        if b == 42 {
            CommentHandle::Block(BlockState)
        } else {
            CommentHandle::Code(CodeState)
        }
    }
}

impl CommentBehavior for BlockState {
    open spec fn tag(self) -> FsmState {
        FsmState::Block
    }

    fn on_byte(self, b: u8, count: &mut CommentCount) -> (next: CommentHandle) {
        if b == 42 {
            CommentHandle::BlockStar(BlockStarState)
        } else {
            *count = CommentCount { counted_bytes: count.counted_bytes + 1 };
            CommentHandle::Block(BlockState)
        }
    }
}

impl CommentBehavior for BlockStarState {
    open spec fn tag(self) -> FsmState {
        FsmState::BlockStar
    }

    fn on_byte(self, b: u8, count: &mut CommentCount) -> (next: CommentHandle) {
        if b == 47 {
            CommentHandle::Code(CodeState)
        } else if b == 42 {
            *count = CommentCount { counted_bytes: count.counted_bytes + 1 };
            CommentHandle::BlockStar(BlockStarState)
        } else {
            *count = CommentCount { counted_bytes: count.counted_bytes + 2 };
            CommentHandle::Block(BlockState)
        }
    }
}

/// The comment automaton under dynamic-interface dispatch: a state handle
/// beside the shared accumulator.
#[derive(Debug)]
pub struct DynamicCommentMachine {
    pub handle: CommentHandle,
    pub count: CommentCount,
}

impl DynamicCommentMachine {
    /// The machine every scan starts from: the `Code` handle, zero bytes
    /// counted.
    pub open spec fn spec_start() -> DynamicCommentMachine {
        DynamicCommentMachine {
            handle: CommentHandle::Code(CodeState),
            count: CommentCount::spec_zero(),
        }
    }

    pub fn start() -> (m: DynamicCommentMachine)
        ensures
            m == DynamicCommentMachine::spec_start(),
    {
        DynamicCommentMachine { handle: CommentHandle::Code(CodeState), count: CommentCount::zero() }
    }
}

impl Machine for DynamicCommentMachine {
    type Symbol = u8;

    type Acc = CommentCount;

    open spec fn can_advance(self, b: u8) -> bool {
        self.count.counted_bytes + comment_delta(self.handle.tag(), b) <= u64::MAX
    }

    open spec fn step(self, b: u8) -> DynamicCommentMachine {
        DynamicCommentMachine {
            handle: comment_handle_for(comment_next(self.handle.tag(), b)),
            count: CommentCount {
                counted_bytes: (self.count.counted_bytes + comment_delta(
                    self.handle.tag(),
                    b,
                )) as u64,
            },
        }
    }

    open spec fn acc(self) -> CommentCount {
        self.count
    }

    fn advance(self, b: u8) -> (next: DynamicCommentMachine) {
        let mut count = self.count;
        let handle = match self.handle {
            CommentHandle::Code(st) => st.on_byte(b, &mut count),
            CommentHandle::Slash(st) => st.on_byte(b, &mut count),
            CommentHandle::Block(st) => st.on_byte(b, &mut count),
            CommentHandle::BlockStar(st) => st.on_byte(b, &mut count),
        };
        DynamicCommentMachine { handle, count }
    }

    fn extract(&self) -> (r: CommentCount) {
        self.count
    }
}

/// A dynamic-dispatch comment machine with two bytes of accumulator
/// headroom per remaining input byte can consume the whole input.
pub proof fn lemma_dynamic_comment_can_run(m: DynamicCommentMachine, input: Seq<u8>)
    requires
        m.count.counted_bytes + 2 * input.len() <= u64::MAX,
    ensures
        can_run(m, input),
    decreases input.len(),
{
    if input.len() > 0 {
        lemma_dynamic_comment_can_run(m.step(input[0]), input.drop_first());
    }
}

/// Count the bytes strictly inside `/* ... */` block comments of `input`
/// under dynamic-interface dispatch, starting outside any comment.
pub fn scan_comment_dynamic(input: &Vec<u8>) -> (r: CommentCount)
    requires
        2 * input@.len() <= u64::MAX,
    ensures
        r == run(DynamicCommentMachine::spec_start(), input@).acc(),
{
    let m = DynamicCommentMachine::start();
    proof {
        lemma_dynamic_comment_can_run(m, input@);
    }
    scan(m, input)
}

} // verus!
