use pomodoro::clock::session_deadline;
use pomodoro::protocol::{decode_reply, encode_action, Action};
use pomodoro::session::{Effect, SessionState};
use pomodoro::server::{respond, serve, ServeError};

#[test]
fn malformed_then_well_formed() {
    let mut state = SessionState::Done;
    assert_eq!(serve(&mut state, &[9, 9], 0).err(), Some(ServeError::Malformed));
    assert_eq!(serve(&mut state, &[7, 0, 0, 0], 0).err(), Some(ServeError::Malformed));
    assert_eq!(state, SessionState::Done);
    let (bytes, effect) = serve(&mut state, &encode_action(Action::Break), 0).unwrap();
    let reply = decode_reply(&bytes).unwrap();
    assert!(reply.accepted);
    assert_eq!(reply.text, b"Starting break".to_vec());
    assert_eq!(effect, Effect::StopAudio);
    assert_eq!(state, SessionState::Idle);
}

#[test]
fn serve_starts_a_session() {
    let mut state = SessionState::Idle;
    let now: i64 = 1_700_000_000;
    let (bytes, effect) = serve(&mut state, &encode_action(Action::Work), now).unwrap();
    let reply = decode_reply(&bytes).unwrap();
    assert_eq!(reply.text, b"Starting a 25-minute session!".to_vec());
    match (state, effect) {
        (SessionState::Working(d), Effect::StartTimer(t)) => {
            assert_eq!(d, t);
            assert_eq!(d.at, now + 1500);
            assert!(d.hour < 24 && d.minute < 60);
        }
        other => panic!("unexpected outcome {:?}", other),
    }
    let (bytes, _) = serve(&mut state, &encode_action(Action::Work), now).unwrap();
    let reply = decode_reply(&bytes).unwrap();
    assert!(!reply.accepted);
    assert_eq!(reply.text, b"Already working".to_vec());
}

#[test]
fn serve_clock_overflow() {
    let mut state = SessionState::Idle;
    let r = serve(&mut state, &encode_action(Action::Work), i64::MAX - 10);
    assert_eq!(r.err(), Some(ServeError::Clock));
    assert_eq!(state, SessionState::Idle);
}

#[test]
fn deadline_clock_fields() {
    assert!(session_deadline(i64::MAX).is_none());
    let d = session_deadline(0).unwrap();
    assert_eq!(d.at, 1500);
    assert!(d.hour < 24);
    // 1970-01-01 00:25 UTC; time zone offsets are whole quarters of an hour.
    assert_eq!(d.minute % 15, 10);
}

#[test]
fn respond_encodes_reply() {
    let mut state = SessionState::Working(session_deadline(0).unwrap());
    let (bytes, effect) = respond(&mut state, Action::WorkDone, session_deadline(0).unwrap());
    assert_eq!(bytes, vec![0, 0, 0, 0, 4, 0, 0, 0, 0, 0, 0, 0, b'Y', b'a', b'y', b'y']);
    assert_eq!(effect, Effect::StartAudio);
    assert_eq!(state, SessionState::Done);
}
