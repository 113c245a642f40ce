use fsm_engine::pipeline::FsmEvent;
use fsm_engine::pipeline::FsmState;
use fsm_engine::pipeline::process_event;

#[test]
fn each_process_event_advances_one_stage() {
    assert_eq!(FsmState::Validated.transition(FsmEvent::Process), FsmState::Enriched);
    assert_eq!(FsmState::Enriched.transition(FsmEvent::Process), FsmState::Persisted);
}

#[test]
fn persisted_is_a_fixed_point() {
    assert_eq!(FsmState::Persisted.transition(FsmEvent::Process), FsmState::Persisted);
}

#[test]
fn processing_walks_the_whole_pipeline() {
    let trace = process_event(FsmEvent::Process);
    assert_eq!(trace, vec![FsmState::Validated, FsmState::Enriched, FsmState::Persisted]);
}
