//! The driver: a strategy-independent interface to a running automaton and
//! the loop that feeds it an input sequence symbol by symbol.
//!
//! A [`Machine`] value pairs the current automaton state with its
//! accumulator; how the pairing is represented (an inline tag, a per-state
//! handle, or a type-level encoding) is the dispatch strategy's business.
//! [`scan`] owns the machine exclusively for the duration of a scan, moves
//! it through [`Machine::advance`] once per symbol, and projects the final
//! accumulator out with [`Machine::extract`].

use vstd::prelude::*;

verus! {

/// One running automaton under some dispatch strategy.
///
/// The specification side fixes the machine's behaviour exactly: `advance`
/// must return precisely `self.step(sym)`, and `extract` must return
/// precisely `self.acc()`. A scan of a whole sequence is then the fold
/// [`run`] of `step`, whatever the strategy.
pub trait Machine: Sized {
    /// The input symbol the automaton consumes (a character or a byte).
    type Symbol: Copy;

    /// The read-only result record a scan produces.
    type Acc;

    /// Whether one more symbol can be consumed without the accumulator
    /// outgrowing its machine-width fields.
    spec fn can_advance(self, sym: Self::Symbol) -> bool;

    /// The machine after consuming `sym`: the successor state paired with
    /// the updated accumulator.
    spec fn step(self, sym: Self::Symbol) -> Self;

    /// The accumulator held by this machine.
    spec fn acc(self) -> Self::Acc;

    /// Consume one symbol, moving the machine to its successor.
    fn advance(self, sym: Self::Symbol) -> (next: Self)
        requires
            self.can_advance(sym),
        ensures
            next == self.step(sym),
    ;

    /// Read the accumulator out of the machine.
    fn extract(&self) -> (r: Self::Acc)
        ensures
            r == self.acc(),
    ;
}

/// The machine after consuming every symbol of `input` in order.
pub open spec fn run<M: Machine>(m: M, input: Seq<M::Symbol>) -> M
    decreases input.len(),
{
    if input.len() == 0 {
        m
    } else {
        run(m.step(input[0]), input.drop_first())
    }
}

/// Whether `m` can consume every symbol of `input` in order, that is,
/// whether each intermediate machine admits the next symbol.
pub open spec fn can_run<M: Machine>(m: M, input: Seq<M::Symbol>) -> bool
    decreases input.len(),
{
    input.len() == 0 || (m.can_advance(input[0]) && can_run(m.step(input[0]), input.drop_first()))
}

/// Unfolds [`run`] and [`can_run`] one symbol at a time from the middle of
/// an input, as the scan loop consumes it.
proof fn lemma_run_unfold<M: Machine>(m: M, input: Seq<M::Symbol>, i: int)
    requires
        0 <= i < input.len(),
    ensures
        run(m, input.skip(i)) == run(m.step(input[i]), input.skip(i + 1)),
        can_run(m, input.skip(i)) == (m.can_advance(input[i]) && can_run(
            m.step(input[i]),
            input.skip(i + 1),
        )),
{
    assert(input.skip(i)[0] == input[i]);
    assert(input.skip(i).drop_first() =~= input.skip(i + 1));
}

/// Chunk invariance: consuming a sequence in one go and consuming it as two
/// consecutive chunks leave the machine in the same place, so in particular
/// both yield the same accumulator. No chunk boundary is an implicit symbol.
pub proof fn lemma_run_in_chunks<M: Machine>(m: M, a: Seq<M::Symbol>, b: Seq<M::Symbol>)
    ensures
        run(m, a + b) == run(run(m, a), b),
    decreases a.len(),
{
    if a.len() == 0 {
        assert(a + b =~= b);
    } else {
        assert((a + b)[0] == a[0]);
        assert((a + b).drop_first() =~= a.drop_first() + b);
        lemma_run_in_chunks(m.step(a[0]), a.drop_first(), b);
    }
}

/// The chunked form of [`can_run`]: a machine can consume `a + b` exactly
/// when it can consume `a` and the machine left behind can consume `b`.
pub proof fn lemma_can_run_in_chunks<M: Machine>(m: M, a: Seq<M::Symbol>, b: Seq<M::Symbol>)
    ensures
        can_run(m, a + b) == (can_run(m, a) && can_run(run(m, a), b)),
    decreases a.len(),
{
    if a.len() == 0 {
        assert(a + b =~= b);
    } else {
        assert((a + b)[0] == a[0]);
        assert((a + b).drop_first() =~= a.drop_first() + b);
        lemma_can_run_in_chunks(m.step(a[0]), a.drop_first(), b);
    }
}

/// Feed every symbol of `input`, in order, to `m`, and return the final
/// machine.
pub fn run_machine<M: Machine>(m: M, input: &Vec<M::Symbol>) -> (r: M)
    requires
        can_run(m, input@),
    ensures
        r == run(m, input@),
{
    let mut cur = m;
    let ghost start = m;
    let mut i: usize = 0;
    assert(input@.skip(0) =~= input@);
    while i < input.len()
        invariant
            0 <= i <= input@.len(),
            can_run(cur, input@.skip(i as int)),
            run(start, input@) == run(cur, input@.skip(i as int)),
        decreases input@.len() - i,
    {
        proof {
            lemma_run_unfold(cur, input@, i as int);
        }
        cur = cur.advance(input[i]);
        i = i + 1;
    }
    assert(input@.skip(i as int) =~= Seq::<M::Symbol>::empty());
    cur
}

/// Scan a whole input: feed every symbol of `input`, in order, to `m`, and
/// return the accumulator of the final machine.
pub fn scan<M: Machine>(m: M, input: &Vec<M::Symbol>) -> (r: M::Acc)
    requires
        can_run(m, input@),
    ensures
        r == run(m, input@).acc(),
{
    let cur = run_machine(m, input);
    cur.extract()
}

} // verus!
