use lcu_client::session::{
    subscription_frame, ConnAction, ConnEvent, ConnPhase, Session, POLL_INTERVAL_MS,
    RETRY_INTERVAL_MS,
};

const ALL_EVENTS: [ConnEvent; 7] = [
    ConnEvent::UpgradeFailed,
    ConnEvent::Upgraded,
    ConnEvent::FrameSent,
    ConnEvent::SendFailed,
    ConnEvent::Frame { len: 12 },
    ConnEvent::FrameError,
    ConnEvent::StreamClosed,
];

fn fails_then_succeeds(n: usize) -> Vec<ConnEvent> {
    let mut events = vec![ConnEvent::UpgradeFailed; n];
    events.push(ConnEvent::Upgraded);
    events
}

fn attempts(answers: &[Option<ConnAction>]) -> usize {
    1 + answers.iter().filter(|a| matches!(a, Some(ConnAction::Retry { .. }))).count()
}

#[test]
fn intervals() {
    assert_eq!(RETRY_INTERVAL_MS, 2000);
    assert_eq!(POLL_INTERVAL_MS, 5000);
}

#[test]
fn subscription_frame_is_the_literal() {
    assert_eq!(subscription_frame(), "[5, \"OnJsonApiEvent\"]");
    assert_eq!(subscription_frame(), r#"[5, "OnJsonApiEvent"]"#);
}

#[test]
fn new_session_is_upgrading() {
    let session = Session::new();
    assert_eq!(session.phase, ConnPhase::Upgrading);
    assert_eq!(session.last_frame_len, None);
}

#[test]
fn immediate_success_takes_one_attempt() {
    let mut session = Session::new();
    let answers = session.replay(&fails_then_succeeds(0));
    assert_eq!(answers, vec![Some(ConnAction::Subscribe)]);
    assert_eq!(attempts(&answers), 1);
    assert_eq!(session.phase, ConnPhase::Subscribing);
}

#[test]
fn n_failures_take_n_plus_one_attempts() {
    for n in [1usize, 2, 3, 17] {
        let mut session = Session::new();
        let answers = session.replay(&fails_then_succeeds(n));
        assert_eq!(answers.len(), n + 1);
        for answer in &answers[..n] {
            assert_eq!(*answer, Some(ConnAction::Retry { millis: 2000 }));
        }
        assert_eq!(answers[n], Some(ConnAction::Subscribe));
        assert_eq!(attempts(&answers), n + 1);
        assert_eq!(session.phase, ConnPhase::Subscribing);
    }
}

#[test]
fn failure_keeps_upgrading() {
    let mut session = Session::new();
    assert_eq!(session.step(ConnEvent::UpgradeFailed), Some(ConnAction::Retry { millis: 2000 }));
    assert_eq!(session, Session::new());
}

#[test]
fn full_session() {
    let mut session = Session::new();
    assert_eq!(session.step(ConnEvent::Upgraded), Some(ConnAction::Subscribe));
    assert_eq!(session.phase, ConnPhase::Subscribing);
    assert_eq!(session.step(ConnEvent::FrameSent), Some(ConnAction::Receive));
    assert_eq!(session.phase, ConnPhase::Receiving);
    assert_eq!(session.step(ConnEvent::Frame { len: 40 }), Some(ConnAction::Receive));
    assert_eq!(session.last_frame_len, Some(40));
    assert_eq!(session.step(ConnEvent::Frame { len: 0 }), Some(ConnAction::Receive));
    assert_eq!(session.last_frame_len, Some(0));
    assert_eq!(session.phase, ConnPhase::Receiving);
    assert_eq!(session.step(ConnEvent::StreamClosed), Some(ConnAction::Publish));
    assert_eq!(session.phase, ConnPhase::Closed);
    assert_eq!(session.last_frame_len, Some(0));
}

#[test]
fn frame_error_publishes() {
    let mut session = Session { phase: ConnPhase::Receiving, last_frame_len: Some(5) };
    assert_eq!(session.step(ConnEvent::FrameError), Some(ConnAction::Publish));
    assert_eq!(session, Session { phase: ConnPhase::Closed, last_frame_len: Some(5) });
}

#[test]
fn failed_subscription_publishes() {
    let mut session = Session { phase: ConnPhase::Subscribing, last_frame_len: None };
    assert_eq!(session.step(ConnEvent::SendFailed), Some(ConnAction::Publish));
    assert_eq!(session, Session { phase: ConnPhase::Closed, last_frame_len: None });
}

#[test]
fn closed_session_answers_nothing() {
    for event in ALL_EVENTS {
        let mut session = Session { phase: ConnPhase::Closed, last_frame_len: Some(1) };
        assert_eq!(session.step(event), None);
        assert_eq!(session, Session { phase: ConnPhase::Closed, last_frame_len: Some(1) });
    }
}

#[test]
fn unexpected_events_change_nothing() {
    let expected: [(ConnPhase, [bool; 7]); 3] = [
        (ConnPhase::Upgrading, [true, true, false, false, false, false, false]),
        (ConnPhase::Subscribing, [false, false, true, true, false, false, false]),
        (ConnPhase::Receiving, [false, false, false, false, true, true, true]),
    ];
    for (phase, fits) in expected {
        for (event, fit) in ALL_EVENTS.iter().zip(fits) {
            let before = Session { phase, last_frame_len: None };
            let mut session = before;
            let answer = session.step(*event);
            assert_eq!(answer.is_some(), fit);
            if !fit {
                assert_eq!(session, before);
            }
        }
    }
}

#[test]
fn replay_answers_each_event() {
    let mut session = Session::new();
    let events = vec![
        ConnEvent::UpgradeFailed,
        ConnEvent::FrameSent,
        ConnEvent::Upgraded,
        ConnEvent::FrameSent,
        ConnEvent::Frame { len: 7 },
        ConnEvent::FrameError,
        ConnEvent::Frame { len: 8 },
    ];
    let answers = session.replay(&events);
    assert_eq!(
        answers,
        vec![
            Some(ConnAction::Retry { millis: 2000 }),
            None,
            Some(ConnAction::Subscribe),
            Some(ConnAction::Receive),
            Some(ConnAction::Receive),
            Some(ConnAction::Publish),
            None,
        ]
    );
    assert_eq!(session, Session { phase: ConnPhase::Closed, last_frame_len: Some(7) });
}

#[test]
fn replay_of_nothing() {
    let mut session = Session::new();
    assert_eq!(session.replay(&Vec::new()), Vec::new());
    assert_eq!(session, Session::new());
}
