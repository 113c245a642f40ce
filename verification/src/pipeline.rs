//! A small event-driven machine in tagged-variant style: a record moves
//! through a processing pipeline, `Validated` to `Enriched` to `Persisted`,
//! one step per `Process` event, and `Persisted` is final.

use vstd::prelude::*;

verus! {

/// Stages of the processing pipeline.
#[derive(Debug, Clone, Copy, PartialEq, Eq, Structural)]
pub enum FsmState {
    Validated,
    Enriched,
    Persisted,
}

/// Events the pipeline machine reacts to.
#[derive(Debug, Clone, Copy)]
pub enum FsmEvent {
    Process,
}

/// How many steps a state is away from the final `Persisted`.
pub open spec fn steps_left(s: FsmState) -> int {
    match s {
        FsmState::Validated => 2,
        FsmState::Enriched => 1,
        FsmState::Persisted => 0,
    }
}

impl FsmState {
    /// Next stage of the pipeline on one event: each `Process` advances one
    /// stage, and `Persisted` stays put.
    pub open spec fn spec_transition(self, event: FsmEvent) -> FsmState {
        match (self, event) {
            (FsmState::Validated, FsmEvent::Process) => FsmState::Enriched,
            (FsmState::Enriched, FsmEvent::Process) => FsmState::Persisted,
            (FsmState::Persisted, FsmEvent::Process) => FsmState::Persisted,
        }
    }

    /// Step the pipeline machine by one event.
    pub fn transition(self, event: FsmEvent) -> (next: Self)
        ensures
            next == self.spec_transition(event),
    {
        match (self, event) {
            (FsmState::Validated, FsmEvent::Process) => FsmState::Enriched,
            (FsmState::Enriched, FsmEvent::Process) => FsmState::Persisted,
            (FsmState::Persisted, FsmEvent::Process) => FsmState::Persisted,
        }
    }
}

/// Drive the pipeline from `Validated` to its fixed point, applying `event`
/// until a transition no longer changes the state, and return every state
/// visited in order: the first is `Validated`, each later one is the
/// transition of the one before it, every step up to the last moved the
/// machine, and the last is the fixed point reached.
pub fn process_event(event: FsmEvent) -> (trace: Vec<FsmState>)
    ensures
        trace@.len() >= 1,
        trace@[0] == FsmState::Validated,
        forall|i: int| 1 <= i < trace@.len() ==> #[trigger] trace@[i] == trace@[
            i - 1
        ].spec_transition(event),
        forall|i: int| 1 <= i < trace@.len() ==> #[trigger] trace@[i] != trace@[i - 1],
        trace@.last().spec_transition(event) == trace@.last(),
{
    let mut state = FsmState::Validated;
    let mut trace: Vec<FsmState> = Vec::new();
    trace.push(state);
    loop
        invariant
            trace@.len() >= 1,
            trace@[0] == FsmState::Validated,
            trace@.last() == state,
            forall|i: int| 1 <= i < trace@.len() ==> #[trigger] trace@[i] == trace@[
                i - 1
            ].spec_transition(event),
            forall|i: int| 1 <= i < trace@.len() ==> #[trigger] trace@[i] != trace@[i - 1],
        ensures
            trace@.len() >= 1,
            trace@[0] == FsmState::Validated,
            trace@.last() == state,
            forall|i: int| 1 <= i < trace@.len() ==> #[trigger] trace@[i] == trace@[
                i - 1
            ].spec_transition(event),
            forall|i: int| 1 <= i < trace@.len() ==> #[trigger] trace@[i] != trace@[i - 1],
            state.spec_transition(event) == state,
        decreases steps_left(state),
    {
        let next = state.transition(event);
        if next == state {
            break;
        }
        state = next;
        trace.push(state);
    }
    trace
}

} // verus!
