//! The session state machine: one pure transition from (state, command) to
//! (new state, reply, effect), and the timer's decision.
use vstd::prelude::*;
use vstd::string::StringSliceAdditionalSpecFns;
use crate::protocol::{Action, Reply, extend_bytes};

verus! {

/// Length of a work session, in minutes.
pub const SESSION_MINUTES: u64 = 25;

/// Length of a work session, in seconds.
pub const SESSION_SECONDS: i64 = 25 * 60;

/// When a work session ends: seconds since the Unix epoch, and the local
/// wall-clock hour and minute at that instant.
#[derive(Clone, Copy, Debug, PartialEq, Eq, Structural)]
pub struct Deadline {
    pub at: i64,
    pub hour: u8,
    pub minute: u8,
}

impl Deadline {
    /// The clock fields are a valid time of day.
    pub open spec fn wf(&self) -> bool {
        self.hour < 24 && self.minute < 60
    }
}

/// The daemon's one session.
#[derive(Clone, Copy, Debug, PartialEq, Eq, Structural)]
pub enum SessionState {
    /// No session is active.
    Idle,
    /// A work interval runs until the deadline.
    Working(Deadline),
    /// The work interval elapsed and the alert sounds.
    Done,
}

/// What the daemon has to do besides replying.
#[derive(Clone, Copy, Debug, PartialEq, Eq, Structural)]
pub enum Effect {
    Nothing,
    StartTimer(Deadline),
    StartAudio,
    StopAudio,
}

/// The timer's decision after one of its sleeps.
#[derive(Clone, Copy, Debug, PartialEq, Eq, Structural)]
pub enum TimerStep {
    Wait,
    Signal,
}

/// The state after `a` in state `s`; `start` is the deadline of a session
/// begun now.
pub open spec fn next_state(s: SessionState, a: Action, start: Deadline) -> SessionState {
    match (s, a) {
        (SessionState::Idle, Action::Work) => SessionState::Working(start),
        (SessionState::Working(_), Action::WorkDone) => SessionState::Done,
        (SessionState::Done, Action::Break) => SessionState::Idle,
        (_, Action::Stop) => SessionState::Idle,
        _ => s,
    }
}

/// The effect that `a` in state `s` asks for.
pub open spec fn next_effect(s: SessionState, a: Action, start: Deadline) -> Effect {
    match (s, a) {
        (SessionState::Idle, Action::Work) => Effect::StartTimer(start),
        (SessionState::Working(_), Action::WorkDone) => Effect::StartAudio,
        (SessionState::Done, Action::Break) => Effect::StopAudio,
        (SessionState::Done, Action::Stop) => Effect::StopAudio,
        _ => Effect::Nothing,
    }
}

/// Whether `a` in state `s` is accepted rather than refused.
pub open spec fn accepts(s: SessionState, a: Action) -> bool {
    match (s, a) {
        (SessionState::Idle, Action::Work) => true,
        (SessionState::Working(_), Action::WorkDone) => true,
        (SessionState::Done, Action::Break) => true,
        (_, Action::Stop) => true,
        (_, Action::GetState) => true,
        _ => false,
    }
}

/// ASCII decimal digits of `n`.
pub open spec fn decimal(n: u64) -> Seq<u8>
    decreases n,
{
    if n < 10 {
        seq![(48 + n) as u8]
    } else {
        decimal(n / 10) + seq![(48 + n % 10) as u8]
    }
}

/// Two ASCII digits for a clock field.
pub open spec fn two_digits(n: u8) -> Seq<u8> {
    seq![(48 + n / 10) as u8, (48 + n % 10) as u8]
}

pub open spec fn start_text() -> Seq<u8> {
    "Starting a ".spec_bytes() + decimal(SESSION_MINUTES) + "-minute session!".spec_bytes()
}

pub open spec fn working_text(d: Deadline) -> Seq<u8> {
    "Working until ".spec_bytes() + two_digits(d.hour) + seq![58u8] + two_digits(d.minute)
}

/// The text of the reply to `a` in state `s`.
pub open spec fn reply_text(s: SessionState, a: Action, start: Deadline) -> Seq<u8> {
    match a {
        Action::Work => match s {
            SessionState::Idle => start_text(),
            SessionState::Working(_) => "Already working".spec_bytes(),
            SessionState::Done => "No way, you need a break".spec_bytes(),
        },
        Action::WorkDone => match s {
            SessionState::Idle => "Not working".spec_bytes(),
            SessionState::Working(_) => "Yayy".spec_bytes(),
            SessionState::Done => "Already doing that".spec_bytes(),
        },
        Action::Break => match s {
            SessionState::Idle => "Already on break".spec_bytes(),
            SessionState::Working(_) => "You're working".spec_bytes(),
            SessionState::Done => "Starting break".spec_bytes(),
        },
        Action::Stop => "Stopped".spec_bytes(),
        Action::GetState => match s {
            SessionState::Idle => "Not doing anything".spec_bytes(),
            SessionState::Working(d) => working_text(d),
            SessionState::Done => "Work session is done, take a break".spec_bytes(),
        },
    }
}

/// Whether the timer of a session ending at `d` fires at time `now`.
pub open spec fn timer_fires(d: Deadline, now: i64) -> bool {
    now >= d.at
}

/// Appends the UTF-8 bytes of `s`.
fn push_text(out: &mut Vec<u8>, s: &str)
    ensures
        final(out)@ == old(out)@ + s.spec_bytes(),
{
    extend_bytes(out, s.as_bytes());
}

/// A fresh byte vector holding the UTF-8 bytes of `s`.
fn text(s: &str) -> (r: Vec<u8>)
    ensures
        r@ == s.spec_bytes(),
{
    let mut r: Vec<u8> = Vec::new();
    push_text(&mut r, s);
    assert(r@ =~= s.spec_bytes());
    r
}

/// Appends the decimal digits of `n`.
fn push_decimal(out: &mut Vec<u8>, n: u64)
    ensures
        final(out)@ == old(out)@ + decimal(n),
    decreases n,
{
    if n >= 10 {
        push_decimal(out, n / 10);
    }
    out.push((48 + n % 10) as u8);
    assert(final(out)@ =~= old(out)@ + decimal(n));
}

/// Appends two digits of a clock field.
fn push_two_digits(out: &mut Vec<u8>, n: u8)
    ensures
        final(out)@ == old(out)@ + two_digits(n),
{
    out.push(48 + n / 10);
    out.push(48 + n % 10);
    assert(final(out)@ =~= old(out)@ + two_digits(n));
}

impl SessionState {
    /// Applies `action`: the new state, the reply, and the effect to perform.
    /// `start` is the deadline that a work session begun now would have.
    pub fn apply(&self, action: Action, start: Deadline) -> (r: (SessionState, Reply, Effect))
        ensures
            r.0 == next_state(*self, action, start),
            r.1.accepted == accepts(*self, action),
            r.1.text@ == reply_text(*self, action, start),
            r.2 == next_effect(*self, action, start),
    {
        match action {
            Action::Work => match *self {
                SessionState::Idle => {
                    let mut t: Vec<u8> = Vec::new();
                    push_text(&mut t, "Starting a ");
                    push_decimal(&mut t, SESSION_MINUTES);
                    push_text(&mut t, "-minute session!");
                    assert(t@ =~= start_text());
                    (
                        SessionState::Working(start),
                        Reply { accepted: true, text: t },
                        Effect::StartTimer(start),
                    )
                },
                SessionState::Working(_) => (
                    *self,
                    Reply { accepted: false, text: text("Already working") },
                    Effect::Nothing,
                ),
                SessionState::Done => (
                    *self,
                    Reply { accepted: false, text: text("No way, you need a break") },
                    Effect::Nothing,
                ),
            },
            Action::WorkDone => match *self {
                SessionState::Idle => (
                    *self,
                    Reply { accepted: false, text: text("Not working") },
                    Effect::Nothing,
                ),
                SessionState::Working(_) => (
                    SessionState::Done,
                    Reply { accepted: true, text: text("Yayy") },
                    Effect::StartAudio,
                ),
                SessionState::Done => (
                    *self,
                    Reply { accepted: false, text: text("Already doing that") },
                    Effect::Nothing,
                ),
            },
            Action::Break => match *self {
                SessionState::Idle => (
                    *self,
                    Reply { accepted: false, text: text("Already on break") },
                    Effect::Nothing,
                ),
                SessionState::Working(_) => (
                    *self,
                    Reply { accepted: false, text: text("You're working") },
                    Effect::Nothing,
                ),
                SessionState::Done => (
                    SessionState::Idle,
                    Reply { accepted: true, text: text("Starting break") },
                    Effect::StopAudio,
                ),
            },
            Action::Stop => {
                let e = match *self {
                    SessionState::Done => Effect::StopAudio,
                    _ => Effect::Nothing,
                };
                (SessionState::Idle, Reply { accepted: true, text: text("Stopped") }, e)
            },
            Action::GetState => match *self {
                SessionState::Idle => (
                    *self,
                    Reply { accepted: true, text: text("Not doing anything") },
                    Effect::Nothing,
                ),
                SessionState::Working(d) => {
                    let mut t: Vec<u8> = Vec::new();
                    push_text(&mut t, "Working until ");
                    push_two_digits(&mut t, d.hour);
                    t.push(58u8);
                    push_two_digits(&mut t, d.minute);
                    assert(t@ =~= working_text(d));
                    (*self, Reply { accepted: true, text: t }, Effect::Nothing)
                },
                SessionState::Done => (
                    *self,
                    Reply { accepted: true, text: text("Work session is done, take a break") },
                    Effect::Nothing,
                ),
            },
        }
    }
}

/// The timer's decision at time `now` for a session ending at `deadline`.
pub fn timer_step(deadline: &Deadline, now: i64) -> (r: TimerStep)
    ensures
        r == (if timer_fires(*deadline, now) {
            TimerStep::Signal
        } else {
            TimerStep::Wait
        }),
{
    if now >= deadline.at {
        TimerStep::Signal
    } else {
        TimerStep::Wait
    }
}

/// Stopping always returns to `Idle` and is accepted; it stops the audio
/// exactly when the alert was sounding, and has no other effect.
pub proof fn lemma_stop_resets(s: SessionState, start: Deadline)
    ensures
        next_state(s, Action::Stop, start) == SessionState::Idle,
        accepts(s, Action::Stop),
        next_effect(s, Action::Stop, start) == (if s is Done {
            Effect::StopAudio
        } else {
            Effect::Nothing
        }),
{
}

/// Querying the state changes nothing and has no effect.
pub proof fn lemma_query_changes_nothing(s: SessionState, start: Deadline)
    ensures
        next_state(s, Action::GetState, start) == s,
        next_effect(s, Action::GetState, start) == Effect::Nothing,
        accepts(s, Action::GetState),
{
}

/// A full cycle from `Idle`: starting work, the timer firing once its
/// deadline has passed and signalling the end of work, then taking a break,
/// comes back to `Idle` with exactly the effects start-timer, start-audio,
/// stop-audio, in that order. The later steps' `start` values play no part.
pub proof fn lemma_work_cycle(d: Deadline, now: i64, start2: Deadline, start3: Deadline)
    requires
        timer_fires(d, now),
    ensures
        ({
            let s1 = next_state(SessionState::Idle, Action::Work, d);
            let s2 = next_state(s1, Action::WorkDone, start2);
            let s3 = next_state(s2, Action::Break, start3);
            &&& s1 == SessionState::Working(d)
            &&& s2 == SessionState::Done
            &&& s3 == SessionState::Idle
            &&& accepts(SessionState::Idle, Action::Work) && accepts(s1, Action::WorkDone)
                && accepts(s2, Action::Break)
            &&& seq![
                next_effect(SessionState::Idle, Action::Work, d),
                next_effect(s1, Action::WorkDone, start2),
                next_effect(s2, Action::Break, start3),
            ] == seq![Effect::StartTimer(d), Effect::StartAudio, Effect::StopAudio]
        }),
{
}

/// A work-finished signal that arrives while no work runs (for example from
/// the timer of a session that was stopped) is refused and changes nothing.
pub proof fn lemma_stale_signal_ignored(s: SessionState, start: Deadline)
    requires
        s is Idle || s is Done,
    ensures
        next_state(s, Action::WorkDone, start) == s,
        !accepts(s, Action::WorkDone),
        next_effect(s, Action::WorkDone, start) == Effect::Nothing,
{
}

} // verus!
