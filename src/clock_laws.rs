use vstd::prelude::*;
use crate::pomodoro::{
    stage_seconds, ClockState, PomodoroStage, UserInputFlags, LAST_CYCLE, LONG_BREAK_SECONDS,
    SHORT_BREAK_SECONDS, WORK_SECONDS,
};

verus! {

/// Something that happens to a clock: a driver tick or a caller's command.
#[derive(Clone, Copy, PartialEq, Eq, Structural, Debug)]
pub enum ClockEvent {
    Tick,
    Pause,
    Resume,
    Stop,
}

/// The state after one event, as `advance`, `request_pause`,
/// `request_resume` and `request_stop` produce it.
pub open spec fn apply(s: ClockState, e: ClockEvent) -> ClockState {
    match e {
        ClockEvent::Tick => s.ticked(),
        ClockEvent::Pause => s.paused(),
        ClockEvent::Resume => s.resumed(),
        ClockEvent::Stop => s.stopped(),
    }
}

/// The state after a run of events, starting from `s`.
pub open spec fn run_from(s: ClockState, events: Seq<ClockEvent>) -> ClockState
    decreases events.len(),
{
    if events.len() == 0 {
        s
    } else {
        apply(run_from(s, events.drop_last()), events.last())
    }
}

/// The state after the same event `n` times in a row.
pub open spec fn repeat(s: ClockState, e: ClockEvent, n: nat) -> ClockState
    decreases n,
{
    if n == 0 {
        s
    } else {
        apply(repeat(s, e, (n - 1) as nat), e)
    }
}

/// Every event keeps a well-formed state well formed.
pub proof fn lemma_apply_wf(s: ClockState, e: ClockEvent)
    requires
        s.wf(),
    ensures
        apply(s, e).wf(),
{
}

/// Every state that a started clock reaches through ticks and commands is
/// well formed: in particular its seconds stay below its stage's length and
/// its cycle within `0..=LAST_CYCLE`.
pub proof fn lemma_reachable_wf(events: Seq<ClockEvent>)
    ensures
        run_from(ClockState::initial(), events).wf(),
        run_from(ClockState::initial(), events).repetitions <= LAST_CYCLE,
    decreases events.len(),
{
    if events.len() > 0 {
        lemma_reachable_wf(events.drop_last());
        lemma_apply_wf(run_from(ClockState::initial(), events.drop_last()), events.last());
    }
}

/// The cycle count falls back only on the move from the long break to work,
/// and then to zero.
pub proof fn lemma_cycle_resets_only_after_long_break(s: ClockState, e: ClockEvent)
    requires
        s.wf(),
    ensures
        apply(s, e).repetitions < s.repetitions ==> (s.stage == PomodoroStage::LongBreak
            && apply(s, e).stage == PomodoroStage::Work && apply(s, e).repetitions == 0),
        apply(s, e).repetitions >= s.repetitions || e == ClockEvent::Tick,
{
}

/// A command given once more changes nothing: `n >= 1` pauses are one pause,
/// and the same holds of resumes and of stops.
pub proof fn lemma_commands_idempotent(s: ClockState, e: ClockEvent, n: nat)
    requires
        e != ClockEvent::Tick,
        n >= 1,
    ensures
        repeat(s, e, n) == apply(s, e),
    decreases n,
{
    assert(repeat(s, e, 0) == s);
    if n > 1 {
        lemma_commands_idempotent(s, e, (n - 1) as nat);
        assert(apply(apply(s, e), e) == apply(s, e));
    }
}

/// The pomodoro count never falls, and it grows, by exactly one, on the move
/// from the long break to work and on no other event (while it has room to
/// grow in a `usize`).
pub proof fn lemma_pomodoros_monotonic(s: ClockState, e: ClockEvent)
    requires
        s.wf(),
    ensures
        apply(s, e).pomodoros >= s.pomodoros,
        s.pomodoros < usize::MAX ==> (apply(s, e).pomodoros == s.pomodoros + 1 <==> (s.stage
            == PomodoroStage::LongBreak && apply(s, e).stage == PomodoroStage::Work)),
        apply(s, e).pomodoros == s.pomodoros || apply(s, e).pomodoros == s.pomodoros + 1,
{
}

/// Over any run of events the pomodoro count never falls.
pub proof fn lemma_pomodoros_never_fall(s: ClockState, events: Seq<ClockEvent>)
    requires
        s.wf(),
    ensures
        run_from(s, events).pomodoros >= s.pomodoros,
        run_from(s, events).wf(),
    decreases events.len(),
{
    if events.len() > 0 {
        lemma_pomodoros_never_fall(s, events.drop_last());
        lemma_apply_wf(run_from(s, events.drop_last()), events.last());
        lemma_pomodoros_monotonic(run_from(s, events.drop_last()), events.last());
    }
}

/// After a pause, any number of ticks leave the stage and the seconds as they
/// were just before the pause.
pub proof fn lemma_pause_freezes_time(s: ClockState, k: nat)
    ensures
        repeat(apply(s, ClockEvent::Pause), ClockEvent::Tick, k).stage == s.stage,
        repeat(apply(s, ClockEvent::Pause), ClockEvent::Tick, k).seconds == s.seconds,
        repeat(apply(s, ClockEvent::Pause), ClockEvent::Tick, k) == apply(s, ClockEvent::Pause),
    decreases k,
{
    if k > 0 {
        lemma_pause_freezes_time(s, (k - 1) as nat);
    }
}

/// A pause followed at once by a resume gives back a running clock's state
/// unchanged.
pub proof fn lemma_pause_then_resume(s: ClockState)
    requires
        s.command == UserInputFlags::Idle,
    ensures
        apply(apply(s, ClockEvent::Pause), ClockEvent::Resume) == s,
{
}

/// `a` events and then `b` more are `a + b` events.
pub proof fn lemma_repeat_add(s: ClockState, e: ClockEvent, a: nat, b: nat)
    ensures
        repeat(s, e, a + b) == repeat(repeat(s, e, a), e, b),
    decreases b,
{
    if b > 0 {
        lemma_repeat_add(s, e, a, (b - 1) as nat);
        assert(repeat(s, e, a + b) == apply(repeat(s, e, (a + b - 1) as nat), e));
    }
}

/// Ticks of a running clock that stay within its stage only add seconds.
pub proof fn lemma_ticks_within_stage(s: ClockState, k: nat)
    requires
        s.command == UserInputFlags::Idle,
        s.seconds + k < stage_seconds(s.stage),
    ensures
        repeat(s, ClockEvent::Tick, k) == (ClockState { seconds: (s.seconds + k) as usize, ..s }),
    decreases k,
{
    if k > 0 {
        lemma_ticks_within_stage(s, (k - 1) as nat);
    } else {
        assert(repeat(s, ClockEvent::Tick, 0) == s);
    }
}

/// A running clock at the start of a stage, after as many ticks as the
/// stage lasts, is where the stage table sends it.
pub proof fn lemma_stage_completes(s: ClockState)
    requires
        s.command == UserInputFlags::Idle,
        s.seconds == 0,
    ensures
        repeat(s, ClockEvent::Tick, stage_seconds(s.stage)) == (ClockState {
            seconds: (stage_seconds(s.stage) - 1) as usize,
            ..s
        }).advanced(),
{
    let d = stage_seconds(s.stage);
    lemma_repeat_add(s, ClockEvent::Tick, (d - 1) as nat, 1);
    lemma_ticks_within_stage(s, (d - 1) as nat);
    let last = repeat(s, ClockEvent::Tick, (d - 1) as nat);
    assert(repeat(last, ClockEvent::Tick, 0) == last);
}

/// One full round of a running clock, from the start of work at the first
/// cycle: after the first work stage it is on a short break, after that break
/// back at work one cycle further; after the third work stage it is on the
/// long break, and after that break back at the start of work at the first
/// cycle with exactly one pomodoro more.
pub proof fn lemma_full_round(s: ClockState)
    requires
        s.stage == PomodoroStage::Work,
        s.seconds == 0,
        s.repetitions == 0,
        s.command == UserInputFlags::Idle,
        s.pomodoros < usize::MAX,
    ensures
        repeat(s, ClockEvent::Tick, WORK_SECONDS as nat) == (ClockState {
            stage: PomodoroStage::ShortBreak,
            ..s
        }),
        repeat(s, ClockEvent::Tick, (WORK_SECONDS + SHORT_BREAK_SECONDS) as nat) == (ClockState {
            repetitions: 1,
            ..s
        }),
        repeat(s, ClockEvent::Tick, (3 * WORK_SECONDS + 2 * SHORT_BREAK_SECONDS) as nat) == (
        ClockState { stage: PomodoroStage::LongBreak, repetitions: 2, ..s }),
        repeat(
            s,
            ClockEvent::Tick,
            (3 * WORK_SECONDS + 2 * SHORT_BREAK_SECONDS + LONG_BREAK_SECONDS) as nat,
        ) == (ClockState { pomodoros: (s.pomodoros + 1) as usize, ..s }),
{
    let w = WORK_SECONDS as nat;
    let b = SHORT_BREAK_SECONDS as nat;
    let l = LONG_BREAK_SECONDS as nat;
    let short0 = ClockState { stage: PomodoroStage::ShortBreak, ..s };
    let work1 = ClockState { repetitions: 1, ..s };
    let short1 = ClockState { stage: PomodoroStage::ShortBreak, repetitions: 1, ..s };
    let work2 = ClockState { repetitions: 2, ..s };
    let long = ClockState { stage: PomodoroStage::LongBreak, repetitions: 2, ..s };
    let done = ClockState { pomodoros: (s.pomodoros + 1) as usize, ..s };

    lemma_stage_completes(s);
    lemma_stage_completes(short0);
    lemma_stage_completes(work1);
    lemma_stage_completes(short1);
    lemma_stage_completes(work2);
    lemma_stage_completes(long);

    lemma_repeat_add(s, ClockEvent::Tick, w, b);
    lemma_repeat_add(s, ClockEvent::Tick, w + b, w);
    lemma_repeat_add(s, ClockEvent::Tick, w + b + w, b);
    lemma_repeat_add(s, ClockEvent::Tick, w + b + w + b, w);
    lemma_repeat_add(s, ClockEvent::Tick, w + b + w + b + w, l);
    assert(repeat(s, ClockEvent::Tick, w) == short0);
    assert(repeat(s, ClockEvent::Tick, w + b) == work1);
    assert(repeat(s, ClockEvent::Tick, w + b + w) == short1);
    assert(repeat(s, ClockEvent::Tick, w + b + w + b) == work2);
    assert(repeat(s, ClockEvent::Tick, w + b + w + b + w) == long);
    assert(repeat(s, ClockEvent::Tick, w + b + w + b + w + l) == done);
}

} // verus!
