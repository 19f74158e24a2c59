use brug::call::{settle, CallEvent, CallFailure, CallState};

#[test]
fn built_call_is_handed_on() {
    assert_eq!(CallState::<u8>::Built.step(CallEvent::Handed), Some(CallState::Sent));
}

#[test]
fn built_call_admits_nothing_else() {
    assert_eq!(CallState::<u8>::Built.step(CallEvent::Responded(1)), None);
    assert_eq!(CallState::<u8>::Built.step(CallEvent::Dropped), None);
}

#[test]
fn sent_call_is_delivered() {
    assert_eq!(CallState::Sent.step(CallEvent::Responded(9u8)), Some(CallState::Delivered(9u8)));
}

#[test]
fn sent_call_is_abandoned() {
    assert_eq!(CallState::<u8>::Sent.step(CallEvent::Dropped), Some(CallState::Abandoned));
}

#[test]
fn sent_call_is_not_handed_on_again() {
    assert_eq!(CallState::<u8>::Sent.step(CallEvent::Handed), None);
}

#[test]
fn no_way_back_from_delivered() {
    assert_eq!(CallState::Delivered(1u8).step(CallEvent::Handed), None);
    assert_eq!(CallState::Delivered(1u8).step(CallEvent::Responded(2)), None);
    assert_eq!(CallState::Delivered(1u8).step(CallEvent::Dropped), None);
}

#[test]
fn no_way_back_from_abandoned() {
    assert_eq!(CallState::<u8>::Abandoned.step(CallEvent::Handed), None);
    assert_eq!(CallState::<u8>::Abandoned.step(CallEvent::Responded(2)), None);
    assert_eq!(CallState::<u8>::Abandoned.step(CallEvent::Dropped), None);
}

#[test]
fn caller_receives_only_at_the_end() {
    assert_eq!(CallState::<u8>::Built.receive(), None);
    assert_eq!(CallState::<u8>::Sent.receive(), None);
    assert_eq!(CallState::Delivered(5u8).receive(), Some(Some(5)));
    assert_eq!(CallState::<u8>::Abandoned.receive(), Some(None));
}

#[test]
fn answered_call_round_trip() {
    let sent = CallState::<bool>::Built.step(CallEvent::Handed).unwrap();
    let done = sent.step(CallEvent::Responded(true)).unwrap();
    let received = done.receive().unwrap();
    assert_eq!(settle("good", received), Ok(true));
}

#[test]
fn dropped_call_is_a_failure() {
    let sent = CallState::<bool>::Built.step(CallEvent::Handed).unwrap();
    let done = sent.step(CallEvent::Dropped).unwrap();
    let received = done.receive().unwrap();
    assert_eq!(settle("good", received), Err(CallFailure { method: "good".to_string() }));
}

#[test]
fn settle_keeps_the_value() {
    assert_eq!(settle("good", Some(false)), Ok(false));
    assert_eq!(settle("good_job_media", Some("x".to_string())), Ok("x".to_string()));
}

#[test]
fn settle_names_the_method() {
    let failure = settle::<String>("good_job_media", None).unwrap_err();
    assert_eq!(failure.method, "good_job_media");
}

#[test]
fn failure_message_names_the_method() {
    let failure = CallFailure { method: "good_job_media".to_string() };
    assert_eq!(failure.message(), "call to good_job_media produced no result");
}

#[test]
fn method_with_a_value_is_answered() {
    assert_eq!(CallEvent::end(Some(7u8)), CallEvent::Responded(7u8));
    assert_eq!(CallEvent::end(Some(false)), CallEvent::Responded(false));
}

#[test]
fn method_without_a_value_has_its_sender_let_go() {
    assert_eq!(CallEvent::<u8>::end(None), CallEvent::Dropped);
}

#[test]
fn round_trip_of_every_outcome() {
    for outcome in [Some(0u8), Some(255u8), None] {
        let sent = CallState::<u8>::Built.step(CallEvent::Handed).unwrap();
        let done = sent.step(CallEvent::end(outcome)).unwrap();
        let received = done.receive().unwrap();
        assert_eq!(received, outcome);
        match outcome {
            Some(value) => assert_eq!(settle("m", received), Ok(value)),
            None => assert_eq!(settle("m", received), Err(CallFailure { method: "m".to_string() })),
        }
    }
}
