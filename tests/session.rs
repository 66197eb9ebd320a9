use pomodoro::protocol::Action;
use pomodoro::session::{timer_step, Deadline, Effect, SessionState, TimerStep};

fn deadline() -> Deadline {
    Deadline { at: 1_000_000, hour: 9, minute: 5 }
}

#[test]
fn work_start_from_idle_then_again() {
    let d = deadline();
    let (s1, reply, effect) = SessionState::Idle.apply(Action::Work, d);
    assert!(reply.accepted);
    assert_eq!(reply.text, b"Starting a 25-minute session!".to_vec());
    assert_eq!(s1, SessionState::Working(d));
    assert_eq!(effect, Effect::StartTimer(d));

    let (s2, reply, effect) = s1.apply(Action::Work, d);
    assert!(!reply.accepted);
    assert_eq!(reply.text, b"Already working".to_vec());
    assert_eq!(s2, s1);
    assert_eq!(effect, Effect::Nothing);
}

#[test]
fn work_done_then_work_refused() {
    let d = deadline();
    let (s1, reply, effect) = SessionState::Working(d).apply(Action::WorkDone, d);
    assert!(reply.accepted);
    assert_eq!(reply.text, b"Yayy".to_vec());
    assert_eq!(s1, SessionState::Done);
    assert_eq!(effect, Effect::StartAudio);

    let (s2, reply, effect) = s1.apply(Action::Work, d);
    assert!(!reply.accepted);
    assert_eq!(reply.text, b"No way, you need a break".to_vec());
    assert_eq!(s2, SessionState::Done);
    assert_eq!(effect, Effect::Nothing);
}

#[test]
fn break_from_done() {
    let (s1, reply, effect) = SessionState::Done.apply(Action::Break, deadline());
    assert!(reply.accepted);
    assert_eq!(reply.text, b"Starting break".to_vec());
    assert_eq!(s1, SessionState::Idle);
    assert_eq!(effect, Effect::StopAudio);
}

#[test]
fn refusals_keep_state() {
    let d = deadline();
    let cases: Vec<(SessionState, Action, &[u8])> = vec![
        (SessionState::Idle, Action::WorkDone, b"Not working"),
        (SessionState::Done, Action::WorkDone, b"Already doing that"),
        (SessionState::Idle, Action::Break, b"Already on break"),
        (SessionState::Working(d), Action::Break, b"You're working"),
    ];
    for (s, a, text) in cases {
        let (next, reply, effect) = s.apply(a, d);
        assert!(!reply.accepted);
        assert_eq!(reply.text, text.to_vec());
        assert_eq!(next, s);
        assert_eq!(effect, Effect::Nothing);
    }
}

#[test]
fn stop_from_every_state() {
    let d = deadline();
    for s in [SessionState::Idle, SessionState::Working(d), SessionState::Done] {
        let (next, reply, effect) = s.apply(Action::Stop, d);
        assert!(reply.accepted);
        assert_eq!(reply.text, b"Stopped".to_vec());
        assert_eq!(next, SessionState::Idle);
        let expected = if s == SessionState::Done { Effect::StopAudio } else { Effect::Nothing };
        assert_eq!(effect, expected);
    }
}

#[test]
fn query_each_state() {
    let d = deadline();
    let cases: Vec<(SessionState, &[u8])> = vec![
        (SessionState::Idle, b"Not doing anything"),
        (SessionState::Working(d), b"Working until 09:05"),
        (SessionState::Done, b"Work session is done, take a break"),
    ];
    for (s, text) in cases {
        let (next, reply, effect) = s.apply(Action::GetState, d);
        assert!(reply.accepted);
        assert_eq!(reply.text, text.to_vec());
        assert_eq!(next, s);
        assert_eq!(effect, Effect::Nothing);
    }
}

#[test]
fn query_late_evening() {
    let d = Deadline { at: 5, hour: 23, minute: 59 };
    let (_, reply, _) = SessionState::Working(d).apply(Action::GetState, d);
    assert_eq!(reply.text, b"Working until 23:59".to_vec());
}

#[test]
fn full_cycle_effects_in_order() {
    let d = deadline();
    let mut effects = Vec::new();
    let (s, _, e) = SessionState::Idle.apply(Action::Work, d);
    effects.push(e);
    assert_eq!(timer_step(&d, d.at - 1), TimerStep::Wait);
    assert_eq!(timer_step(&d, d.at), TimerStep::Signal);
    let (s, _, e) = s.apply(Action::WorkDone, d);
    effects.push(e);
    let (s, _, e) = s.apply(Action::Break, d);
    effects.push(e);
    assert_eq!(s, SessionState::Idle);
    assert_eq!(effects, vec![Effect::StartTimer(d), Effect::StartAudio, Effect::StopAudio]);
}

#[test]
fn stale_signal_after_stop() {
    let d = deadline();
    let (s, _, _) = SessionState::Idle.apply(Action::Work, d);
    let (s, _, _) = s.apply(Action::Stop, d);
    let (s2, reply, effect) = s.apply(Action::WorkDone, d);
    assert!(!reply.accepted);
    assert_eq!(s2, SessionState::Idle);
    assert_eq!(effect, Effect::Nothing);
}

#[test]
fn timer_waits_before_deadline() {
    let d = Deadline { at: -10, hour: 0, minute: 0 };
    assert_eq!(timer_step(&d, -11), TimerStep::Wait);
    assert_eq!(timer_step(&d, -10), TimerStep::Signal);
    assert_eq!(timer_step(&d, i64::MAX), TimerStep::Signal);
}
