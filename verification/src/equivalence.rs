//! Strategy equivalence: the three dispatch strategies drive the same
//! canonical transition tables, so for the same input they produce
//! identical accumulator values. The lemmas here prove it once and for all
//! inputs, for both automatons.

use vstd::prelude::*;

use crate::comment_tagged::TaggedCommentMachine;
use crate::comment_dynamic::DynamicCommentMachine;
use crate::comment_typestate::TypedCommentMachine;
use crate::driver::Machine;
use crate::driver::run;
use crate::text_tagged::TaggedTextMachine;
use crate::text_dynamic::DynamicTextMachine;
use crate::text_typestate::TypedTextMachine;

verus! {

/// Text machines of the three strategies that agree on state and
/// accumulator keep agreeing, symbol by symbol, over any input.
pub proof fn lemma_text_strategies_aligned(
    t: TaggedTextMachine,
    d: DynamicTextMachine,
    y: TypedTextMachine,
    input: Seq<char>,
)
    requires
        d.handle.tag() == t.state,
        d.stats == t.stats,
        y.state_tag() == t.state,
        y.stats() == t.stats,
    ensures
        run(d, input).handle.tag() == run(t, input).state,
        run(d, input).stats == run(t, input).stats,
        run(y, input).state_tag() == run(t, input).state,
        run(y, input).stats() == run(t, input).stats,
    decreases input.len(),
{
    if input.len() > 0 {
        lemma_text_strategies_aligned(
            t.step(input[0]),
            d.step(input[0]),
            y.step(input[0]),
            input.drop_first(),
        );
    }
}

/// Strategy equivalence for the text scanner: scanning any input from the
/// start state yields the same statistics under tagged-variant,
/// dynamic-interface and typestate dispatch.
pub proof fn lemma_text_strategy_equivalence(input: Seq<char>)
    ensures
        run(DynamicTextMachine::spec_start(), input).acc() == run(
            TaggedTextMachine::spec_start(),
            input,
        ).acc(),
        run(TypedTextMachine::spec_start(), input).acc() == run(
            TaggedTextMachine::spec_start(),
            input,
        ).acc(),
{
    lemma_text_strategies_aligned(
        TaggedTextMachine::spec_start(),
        DynamicTextMachine::spec_start(),
        TypedTextMachine::spec_start(),
        input,
    );
}

/// Comment machines of the three strategies that agree on state and
/// accumulator keep agreeing, byte by byte, over any input.
pub proof fn lemma_comment_strategies_aligned(
    t: TaggedCommentMachine,
    d: DynamicCommentMachine,
    y: TypedCommentMachine,
    input: Seq<u8>,
)
    requires
        d.handle.tag() == t.state,
        d.count == t.count,
        y.state_tag() == t.state,
        y.count() == t.count,
    ensures
        run(d, input).handle.tag() == run(t, input).state,
        run(d, input).count == run(t, input).count,
        run(y, input).state_tag() == run(t, input).state,
        run(y, input).count() == run(t, input).count,
    decreases input.len(),
{
    if input.len() > 0 {
        lemma_comment_strategies_aligned(
            t.step(input[0]),
            d.step(input[0]),
            y.step(input[0]),
            input.drop_first(),
        );
    }
}

/// Strategy equivalence for the comment counter: scanning any input from
/// the start state counts the same bytes under tagged-variant,
/// dynamic-interface and typestate dispatch.
pub proof fn lemma_comment_strategy_equivalence(input: Seq<u8>)
    ensures
        run(DynamicCommentMachine::spec_start(), input).acc() == run(
            TaggedCommentMachine::spec_start(),
            input,
        ).acc(),
        run(TypedCommentMachine::spec_start(), input).acc() == run(
            TaggedCommentMachine::spec_start(),
            input,
        ).acc(),
{
    lemma_comment_strategies_aligned(
        TaggedCommentMachine::spec_start(),
        DynamicCommentMachine::spec_start(),
        TypedCommentMachine::spec_start(),
        input,
    );
}

} // verus!
