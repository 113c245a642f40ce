//! Typestate dispatch for the block-comment byte counter: the state is part
//! of the machine value's type, and [`TypedCommentMachine`] wraps the
//! reachable typed machines in one sum so the driver can hold a single
//! variable across a scan.

use vstd::prelude::*;

use crate::comment_table::CommentCount;
use crate::comment_table::FsmState;
use crate::comment_table::comment_delta;
use crate::comment_table::comment_next;
use crate::driver::Machine;
use crate::driver::can_run;
use crate::driver::run;
use crate::driver::scan;

verus! {

/// The counter outside any comment; also how a scan begins.
#[derive(Debug, Clone, Copy, PartialEq, Eq, Structural)]
pub struct CodeMachine {
    pub count: CommentCount,
}

/// The counter just after a `/` seen outside a comment.
#[derive(Debug, Clone, Copy, PartialEq, Eq, Structural)]
pub struct SlashMachine {
    pub count: CommentCount,
}

/// The counter inside a block comment.
#[derive(Debug, Clone, Copy, PartialEq, Eq, Structural)]
pub struct BlockMachine {
    pub count: CommentCount,
}

/// The counter inside a block comment whose previous byte was `*`.
#[derive(Debug, Clone, Copy, PartialEq, Eq, Structural)]
pub struct BlockStarMachine {
    pub count: CommentCount,
}

/// The sum of all reachable typed comment machines.
#[derive(Debug, Clone, Copy, PartialEq, Eq, Structural)]
pub enum TypedCommentMachine {
    Code(CodeMachine),
    Slash(SlashMachine),
    Block(BlockMachine),
    BlockStar(BlockStarMachine),
}

/// The typed machine for a given state and accumulator.
pub open spec fn typed_comment_for(s: FsmState, acc: CommentCount) -> TypedCommentMachine {
    match s {
        FsmState::Code => TypedCommentMachine::Code(CodeMachine { count: acc }),
        FsmState::Slash => TypedCommentMachine::Slash(SlashMachine { count: acc }),
        FsmState::Block => TypedCommentMachine::Block(BlockMachine { count: acc }),
        FsmState::BlockStar => TypedCommentMachine::BlockStar(BlockStarMachine { count: acc }),
    }
}

impl CodeMachine {
    /// Consume one byte outside any comment: `/` may begin an opener,
    /// nothing is counted.
    pub fn next_byte(self, b: u8) -> (m: TypedCommentMachine)
        ensures
            m == typed_comment_for(
                comment_next(FsmState::Code, b),
                CommentCount {
                    counted_bytes: (self.count.counted_bytes + comment_delta(
                        FsmState::Code,
                        b,
                    )) as u64,
                },
            ),
    {
        if b == 47 {
            TypedCommentMachine::Slash(SlashMachine { count: self.count })
        } else {
            TypedCommentMachine::Code(self)
        }
    }
}

impl SlashMachine {
    /// Consume one byte after a lone `/`: `*` opens a block comment, any
    /// other byte was a false alarm; nothing is counted.
    pub fn next_byte(self, b: u8) -> (m: TypedCommentMachine)
        ensures
            m == typed_comment_for(
                comment_next(FsmState::Slash, b),
                CommentCount {
                    counted_bytes: (self.count.counted_bytes + comment_delta(
                        FsmState::Slash,
                        b,
                    )) as u64,
                },
            ),
    {
        if b == 42 {
            TypedCommentMachine::Block(BlockMachine { count: self.count })
        } else {
            TypedCommentMachine::Code(CodeMachine { count: self.count })
        }
    }
}

impl BlockMachine {
    /// Consume one byte inside a comment: `*` may begin the closer and is
    /// not counted yet, any other byte is body and counts one.
    pub fn next_byte(self, b: u8) -> (m: TypedCommentMachine)
        requires
            self.count.counted_bytes + comment_delta(FsmState::Block, b) <= u64::MAX,
        ensures
            m == typed_comment_for(
                comment_next(FsmState::Block, b),
                CommentCount {
                    counted_bytes: (self.count.counted_bytes + comment_delta(
                        FsmState::Block,
                        b,
                    )) as u64,
                },
            ),
    {
        if b == 42 {
            TypedCommentMachine::BlockStar(BlockStarMachine { count: self.count })
        } else {
            TypedCommentMachine::Block(
                BlockMachine {
                    count: CommentCount { counted_bytes: self.count.counted_bytes + 1 },
                },
            )
        }
    }
}

impl BlockStarMachine {
    /// Consume one byte after a `*` inside a comment: `/` closes the
    /// comment (nothing counted), another `*` counts the previous one as
    /// body, and any other byte counts both the previous `*` and itself.
    pub fn next_byte(self, b: u8) -> (m: TypedCommentMachine)
        requires
            self.count.counted_bytes + comment_delta(FsmState::BlockStar, b) <= u64::MAX,
        ensures
            m == typed_comment_for(
                comment_next(FsmState::BlockStar, b),
                CommentCount {
                    counted_bytes: (self.count.counted_bytes + comment_delta(
                        FsmState::BlockStar,
                        b,
                    )) as u64,
                },
            ),
    {
        if b == 47 {
            TypedCommentMachine::Code(CodeMachine { count: self.count })
        } else if b == 42 {
            TypedCommentMachine::BlockStar(
                BlockStarMachine {
                    count: CommentCount { counted_bytes: self.count.counted_bytes + 1 },
                },
            )
        } else {
            TypedCommentMachine::Block(
                BlockMachine {
                    count: CommentCount { counted_bytes: self.count.counted_bytes + 2 },
                },
            )
        }
    }
}

impl TypedCommentMachine {
    /// The state encoded in the machine's variant.
    pub open spec fn state_tag(self) -> FsmState {
        match self {
            TypedCommentMachine::Code(_) => FsmState::Code,
            TypedCommentMachine::Slash(_) => FsmState::Slash,
            TypedCommentMachine::Block(_) => FsmState::Block,
            TypedCommentMachine::BlockStar(_) => FsmState::BlockStar,
        }
    }

    /// The accumulator carried by the current typed machine.
    pub open spec fn count(self) -> CommentCount {
        match self {
            TypedCommentMachine::Code(m) => m.count,
            TypedCommentMachine::Slash(m) => m.count,
            TypedCommentMachine::Block(m) => m.count,
            TypedCommentMachine::BlockStar(m) => m.count,
        }
    }

    /// The machine every scan starts from: typed `Code`, zero bytes
    /// counted.
    pub open spec fn spec_start() -> TypedCommentMachine {
        TypedCommentMachine::Code(CodeMachine { count: CommentCount::spec_zero() })
    }

    pub fn start() -> (m: TypedCommentMachine)
        ensures
            m == TypedCommentMachine::spec_start(),
    {
        TypedCommentMachine::Code(CodeMachine { count: CommentCount::zero() })
    }
}

impl Machine for TypedCommentMachine {
    type Symbol = u8;

    type Acc = CommentCount;

    open spec fn can_advance(self, b: u8) -> bool {
        self.count().counted_bytes + comment_delta(self.state_tag(), b) <= u64::MAX
    }

    open spec fn step(self, b: u8) -> TypedCommentMachine {
        typed_comment_for(
            comment_next(self.state_tag(), b),
            CommentCount {
                counted_bytes: (self.count().counted_bytes + comment_delta(
                    self.state_tag(),
                    b,
                )) as u64,
            },
        )
    }

    open spec fn acc(self) -> CommentCount {
        self.count()
    }

    fn advance(self, b: u8) -> (next: TypedCommentMachine) {
        match self {
            TypedCommentMachine::Code(m) => m.next_byte(b),
            TypedCommentMachine::Slash(m) => m.next_byte(b),
            TypedCommentMachine::Block(m) => m.next_byte(b),
            TypedCommentMachine::BlockStar(m) => m.next_byte(b),
        }
    }

    fn extract(&self) -> (r: CommentCount) {
        match self {
            TypedCommentMachine::Code(m) => m.count,
            TypedCommentMachine::Slash(m) => m.count,
            TypedCommentMachine::Block(m) => m.count,
            TypedCommentMachine::BlockStar(m) => m.count,
        }
    }
}

/// A typestate comment machine with two bytes of accumulator headroom per
/// remaining input byte can consume the whole input.
pub proof fn lemma_typed_comment_can_run(m: TypedCommentMachine, input: Seq<u8>)
    requires
        m.count().counted_bytes + 2 * input.len() <= u64::MAX,
    ensures
        can_run(m, input),
    decreases input.len(),
{
    if input.len() > 0 {
        lemma_typed_comment_can_run(m.step(input[0]), input.drop_first());
    }
}

/// Count the bytes strictly inside `/* ... */` block comments of `input`
/// under typestate dispatch, starting outside any comment.
pub fn scan_comment_typestate(input: &Vec<u8>) -> (r: CommentCount)
    requires
        2 * input@.len() <= u64::MAX,
    ensures
        r == run(TypedCommentMachine::spec_start(), input@).acc(),
{
    let m = TypedCommentMachine::start();
    proof {
        lemma_typed_comment_can_run(m, input@);
    }
    scan(m, input)
}

} // verus!
