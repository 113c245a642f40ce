//! Transition table of the block-comment byte counter.
//!
//! The automaton reads one raw byte at a time and counts the bytes that lie
//! strictly inside `/* ... */` block comments; the four delimiter bytes are
//! never counted. UTF-8 input is counted per byte.

use vstd::prelude::*;

verus! {

/// States of the block-comment byte counter. Exactly one state is active at
/// any time; a scan starts in `Code`.
#[derive(Debug, Clone, Copy, PartialEq, Eq, Structural)]
pub enum FsmState {
    /// Outside any comment.
    Code,
    /// Just saw `/` outside a comment.
    Slash,
    /// Inside `/* ... */`.
    Block,
    /// Inside a block comment; the previous byte was `*`.
    BlockStar,
}

/// Accumulator of the block-comment byte counter: the number of content
/// bytes seen so far. It only ever grows during a scan.
#[derive(Debug, Clone, Copy, PartialEq, Eq, Structural)]
pub struct CommentCount {
    pub counted_bytes: u64,
}

impl CommentCount {
    /// The zero-valued accumulator every scan starts from.
    pub open spec fn spec_zero() -> CommentCount {
        CommentCount { counted_bytes: 0 }
    }

    pub fn zero() -> (r: CommentCount)
        ensures
            r == CommentCount::spec_zero(),
    {
        CommentCount { counted_bytes: 0 }
    }
}

/// Next state of the comment automaton on one input byte.
pub open spec fn comment_next(s: FsmState, b: u8) -> FsmState {
    match s {
        FsmState::Code => if b == 47 {
            FsmState::Slash
        } else {
            FsmState::Code
        },
        FsmState::Slash => if b == 42 {
            FsmState::Block
        } else {
            FsmState::Code
        },
        FsmState::Block => if b == 42 {
            FsmState::BlockStar
        } else {
            FsmState::Block
        },
        FsmState::BlockStar => if b == 47 {
            FsmState::Code
        } else if b == 42 {
            FsmState::BlockStar
        } else {
            FsmState::Block
        },
    }
}

/// Number of content bytes that one transition of the comment automaton
/// counts: `0`, `1`, or `2`.
///
/// The `2` arises when a `*` inside a comment turns out not to close it:
/// the earlier `*` was itself content and so is the current byte, and both
/// are counted on this single transition.
pub open spec fn comment_delta(s: FsmState, b: u8) -> u64 {
    match s {
        FsmState::Code => 0,
        FsmState::Slash => 0,
        FsmState::Block => if b == 42 {
            0
        } else {
            1
        },
        FsmState::BlockStar => if b == 47 {
            0
        } else if b == 42 {
            1
        } else {
            2
        },
    }
}

impl FsmState {
    /// Step the comment automaton by one byte and return the next state and
    /// the number of content bytes this byte contributes.
    pub fn transition(self, b: u8) -> (r: (Self, u64))
        ensures
            r.0 == comment_next(self, b),
            r.1 == comment_delta(self, b),
    {
        match (self, b) {
            (FsmState::Code, 47u8) => (FsmState::Slash, 0),
            (FsmState::Code, _) => (FsmState::Code, 0),
            (FsmState::Slash, 42u8) => (FsmState::Block, 0),
            (FsmState::Slash, _) => (FsmState::Code, 0),
            (FsmState::Block, 42u8) => (FsmState::BlockStar, 0),
            (FsmState::Block, _) => (FsmState::Block, 1),
            (FsmState::BlockStar, 47u8) => (FsmState::Code, 0),
            (FsmState::BlockStar, 42u8) => (FsmState::BlockStar, 1),
            (FsmState::BlockStar, _) => (FsmState::Block, 2),
        }
    }
}

} // verus!
