use gdax_feed::connector::{DataFrame, Opcode};
use gdax_feed::continuity::Continuity;
use gdax_feed::matcher::Matchers;
use gdax_feed::packet::Packet;
use gdax_feed::session::{Action, Event, Input, Phase, Session, ENDMSG, RESETMSG};

fn matchers() -> Matchers {
    match Matchers::new() {
        Ok(matchers) => matchers,
        Err(cause) => panic!("the patterns do not compile: {}", cause),
    }
}

fn text_frame(text: &str) -> Event {
    Event::Frame(DataFrame {
        finished: true,
        reserved: [false, false, false],
        opcode: Opcode::Text,
        data: text.as_bytes().to_vec(),
    })
}

fn binary_frame(data: &[u8]) -> Event {
    Event::Frame(DataFrame {
        finished: true,
        reserved: [false, false, false],
        opcode: Opcode::Binary,
        data: data.to_vec(),
    })
}

/// A session that has written its reset notice and connected.
fn reading(m: &Matchers) -> Session {
    let mut session = Session::new();
    assert_eq!(session.pending(), Action::SendReset);
    assert_eq!(session.step(Event::Done, m), Action::Connect);
    assert_eq!(session.step(Event::Done, m), Action::ReadFrame);
    session
}

#[test]
fn notices() {
    assert_eq!(RESETMSG, "{\"type\":\"reset\"}");
    assert_eq!(ENDMSG, "{\"type\":\"closing\"}");
}

#[test]
fn a_run_starts_with_the_reset_notice() {
    let session = Session::new();
    assert_eq!(session.phase(), &Phase::Resetting);
    assert_eq!(session.continuity(), Continuity::Uninitialized);
    assert_eq!(session.pending(), Action::SendReset);
}

#[test]
fn accepted_messages_are_forwarded_verbatim() {
    let m = matchers();
    let mut session = reading(&m);
    let first = r#"{"type":"heartbeat","sequence":5}"#;
    assert_eq!(session.step(text_frame(first), &m), Action::Forward(first.to_string()));
    assert_eq!(session.continuity(), Continuity::Tracking(5));
    assert_eq!(session.phase(), &Phase::Forwarding(first.to_string()));
    assert_eq!(session.step(Event::Done, &m), Action::ReadFrame);
    let second = r#"{"type":"update","sequence":6}"#;
    assert_eq!(session.step(text_frame(second), &m), Action::Forward(second.to_string()));
    assert_eq!(session.continuity(), Continuity::Tracking(6));
    assert_eq!(session.step(Event::Done, &m), Action::ReadFrame);
}

#[test]
fn a_gap_ends_the_session() {
    let m = matchers();
    let mut session = reading(&m);
    let texts = [r#"{"type":"heartbeat","sequence":5}"#, r#"{"type":"update","sequence":6}"#];
    for text in texts {
        assert_eq!(session.step(text_frame(text), &m), Action::Forward(text.to_string()));
        assert_eq!(session.step(Event::Done, &m), Action::ReadFrame);
    }
    let gap = r#"{"type":"update","sequence":8}"#;
    assert_eq!(session.step(text_frame(gap), &m), Action::Disconnect);
    assert_eq!(session.continuity(), Continuity::Tracking(6));
    assert_eq!(session.step(Event::Done, &m), Action::SendReset);
    assert_eq!(session.continuity(), Continuity::Uninitialized);
    assert_eq!(session.step(Event::Done, &m), Action::Connect);
    assert_eq!(session.step(Event::Done, &m), Action::ReadFrame);
    assert_eq!(session.step(text_frame(gap), &m), Action::Forward(gap.to_string()));
    assert_eq!(session.continuity(), Continuity::Tracking(8));
}

#[test]
fn a_binary_frame_ends_the_session_and_forwards_nothing() {
    let m = matchers();
    let mut session = reading(&m);
    let first = r#"{"type":"update","sequence":70}"#;
    assert_eq!(session.step(text_frame(first), &m), Action::Forward(first.to_string()));
    assert_eq!(session.step(Event::Done, &m), Action::ReadFrame);
    let before = session.continuity();
    assert_eq!(before, Continuity::Tracking(70));
    let action = session.step(binary_frame(br#"{"type":"update","sequence":71}"#), &m);
    assert_eq!(action, Action::Disconnect);
    assert_eq!(action.downstream_text(), None);
    assert_eq!(session.continuity(), before);
    assert_eq!(session.phase(), &Phase::Disconnecting);
    assert_eq!(session.step(Event::Done, &m), Action::SendReset);
}

#[test]
fn a_text_frame_that_is_not_utf8_ends_the_session() {
    let m = matchers();
    let mut session = reading(&m);
    let frame = Event::Frame(DataFrame {
        finished: true,
        reserved: [false, false, false],
        opcode: Opcode::Text,
        data: vec![b'{', 0xff, b'}'],
    });
    assert_eq!(session.step(frame, &m), Action::Disconnect);
    assert_eq!(session.continuity(), Continuity::Uninitialized);
}

#[test]
fn a_read_error_ends_the_session() {
    let m = matchers();
    let mut session = reading(&m);
    assert_eq!(session.step(Event::Failed("connection reset".to_string()), &m), Action::Disconnect);
    assert_eq!(session.step(Event::Done, &m), Action::SendReset);
}

#[test]
fn an_unplaced_payload_ends_the_session() {
    let m = matchers();
    let mut session = reading(&m);
    assert_eq!(session.step(text_frame(r#"{"type":"error","message":"x"}"#), &m), Action::Disconnect);
    assert_eq!(session.continuity(), Continuity::Uninitialized);
}

#[test]
fn a_failed_write_on_the_third_message_is_fatal() {
    for closing_succeeds in [true, false] {
        let m = matchers();
        let mut session = reading(&m);
        let texts = [
            r#"{"type":"heartbeat","sequence":5}"#,
            r#"{"type":"update","sequence":6}"#,
            r#"{"type":"update","sequence":7}"#,
        ];
        let mut closings = 0;
        for text in &texts[..2] {
            assert_eq!(session.step(text_frame(text), &m), Action::Forward(text.to_string()));
            assert_eq!(session.step(Event::Done, &m), Action::ReadFrame);
        }
        assert_eq!(session.step(text_frame(texts[2]), &m), Action::Forward(texts[2].to_string()));
        let mut action = session.step(Event::Failed("broken pipe".to_string()), &m);
        if action == Action::SendClosing {
            closings += 1;
        }
        assert_eq!(action.downstream_text(), Some(ENDMSG));
        assert_eq!(session.phase(), &Phase::Closing("broken pipe".to_string()));
        let report = if closing_succeeds {
            Event::Done
        } else {
            Event::Failed("still broken".to_string())
        };
        action = session.step(report, &m);
        assert_eq!(action, Action::Exit("broken pipe".to_string()));
        assert_eq!(action.downstream_text(), None);
        for report in [Event::Done, Event::Failed("late".to_string()), text_frame("x")] {
            action = session.step(report, &m);
            if action == Action::SendClosing {
                closings += 1;
            }
            assert_eq!(action, Action::Exit("broken pipe".to_string()));
        }
        assert_eq!(closings, 1);
    }
}

#[test]
fn a_failed_connect_is_fatal() {
    let m = matchers();
    let mut session = Session::new();
    assert_eq!(session.step(Event::Done, &m), Action::Connect);
    assert_eq!(session.step(Event::Failed("handshake refused".to_string()), &m), Action::SendClosing);
    assert_eq!(session.step(Event::Done, &m), Action::Exit("handshake refused".to_string()));
}

#[test]
fn a_failed_reset_is_fatal() {
    let m = matchers();
    let mut session = Session::new();
    assert_eq!(session.step(Event::Failed("no reader".to_string()), &m), Action::SendClosing);
    assert_eq!(
        session.step(Event::Failed("no reader".to_string()), &m),
        Action::Exit("no reader".to_string())
    );
}

#[test]
fn one_reset_before_each_connect() {
    let m = matchers();
    let mut session = Session::new();
    let mut action = session.pending();
    let mut resets_since_connect = 0;
    let mut connects = 0;
    let mut steps = 0;
    while connects < 5 {
        steps += 1;
        assert!(steps < 100);
        let report = match action {
            Action::SendReset => {
                resets_since_connect += 1;
                Event::Done
            },
            Action::Connect => {
                assert_eq!(resets_since_connect, 1);
                resets_since_connect = 0;
                connects += 1;
                Event::Done
            },
            Action::ReadFrame => Event::Failed("eof".to_string()),
            Action::Disconnect => Event::Done,
            other => panic!("unexpected action {:?}", other),
        };
        action = session.step(report, &m);
    }
    assert_eq!(connects, 5);
}

#[test]
fn a_report_that_answers_nothing_changes_nothing() {
    let m = matchers();
    let mut session = Session::new();
    let before = session.clone();
    assert_eq!(session.step(text_frame(r#"{"type":"update","sequence":1}"#), &m), Action::SendReset);
    assert_eq!(session, before);
    let mut session = reading(&m);
    let before = session.clone();
    assert_eq!(session.step(Event::Done, &m), Action::ReadFrame);
    assert_eq!(session, before);
    let text = r#"{"type":"update","sequence":1}"#;
    assert_eq!(session.step(text_frame(text), &m), Action::Forward(text.to_string()));
    let before = session.clone();
    assert_eq!(session.step(text_frame(text), &m), Action::Forward(text.to_string()));
    assert_eq!(session, before);
}

#[test]
fn advance_takes_the_classification_as_given() {
    let mut session = Session::new();
    assert_eq!(session.advance(Input::Done), Action::Connect);
    assert_eq!(session.advance(Input::Done), Action::ReadFrame);
    assert_eq!(
        session.advance(Input::Message("a".to_string(), Packet::Next(9))),
        Action::Forward("a".to_string())
    );
    assert_eq!(session.continuity(), Continuity::Tracking(9));
    assert_eq!(session.advance(Input::Done), Action::ReadFrame);
    assert_eq!(
        session.advance(Input::Message("b".to_string(), Packet::HeartBeat(9))),
        Action::Forward("b".to_string())
    );
    assert_eq!(session.advance(Input::Done), Action::ReadFrame);
    assert_eq!(session.advance(Input::NotText), Action::Disconnect);
    assert_eq!(session.continuity(), Continuity::Tracking(9));
    assert_eq!(session.advance(Input::Failed("drop".to_string())), Action::SendReset);
    assert_eq!(session.continuity(), Continuity::Uninitialized);
}

#[test]
fn classify_narrows_and_classifies_a_frame() {
    let m = matchers();
    assert_eq!(Event::Done.classify(&m), Input::Done);
    assert_eq!(Event::Failed("x".to_string()).classify(&m), Input::Failed("x".to_string()));
    let text = r#"{"type":"heartbeat","sequence":3}"#;
    assert_eq!(text_frame(text).classify(&m), Input::Message(text.to_string(), Packet::HeartBeat(3)));
    assert_eq!(text_frame("junk").classify(&m), Input::Message("junk".to_string(), Packet::Reconnect));
    assert_eq!(binary_frame(text.as_bytes()).classify(&m), Input::NotText);
}

#[test]
fn what_each_action_writes_downstream() {
    assert_eq!(Action::SendReset.downstream_text(), Some("{\"type\":\"reset\"}"));
    assert_eq!(Action::SendClosing.downstream_text(), Some("{\"type\":\"closing\"}"));
    assert_eq!(Action::Forward("verbatim".to_string()).downstream_text(), Some("verbatim"));
    assert_eq!(Action::Connect.downstream_text(), None);
    assert_eq!(Action::ReadFrame.downstream_text(), None);
    assert_eq!(Action::Disconnect.downstream_text(), None);
    assert_eq!(Action::Exit("cause".to_string()).downstream_text(), None);
}
