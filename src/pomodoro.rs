use std::sync::Arc;
use vstd::prelude::*;
use vstd::rwlock::{RwLock, RwLockPredicate};

verus! {

/// Length of a work stage, in seconds.
pub const WORK_SECONDS: usize = 1500;

/// Length of a short break, in seconds.
pub const SHORT_BREAK_SECONDS: usize = 300;

/// Length of a long break, in seconds.
pub const LONG_BREAK_SECONDS: usize = 1800;

/// Index of the last work cycle before a long break (cycles are 0, 1, 2).
pub const LAST_CYCLE: u8 = 2;

/// The stage the clock is in.
#[derive(Clone, Copy, PartialEq, Eq, Structural, Debug)]
pub enum PomodoroStage {
    Work,
    ShortBreak,
    LongBreak,
}

/// The single-slot mailbox from callers to the driver: the latest command wins.
#[derive(Clone, Copy, PartialEq, Eq, Structural, Debug)]
pub enum UserInputFlags {
    Idle,
    Pause,
    Stop,
}

/// What the driver did on one tick.
#[derive(Clone, Copy, PartialEq, Eq, Structural, Debug)]
pub enum TickAction {
    /// Time advanced by one second (and the stage may have changed).
    Advanced,
    /// The clock is paused: nothing changed.
    Paused,
    /// The clock is stopped: the driver ends.
    Stopped,
}

/// The length of a stage, in seconds.
pub open spec fn stage_seconds(stage: PomodoroStage) -> nat {
    match stage {
        PomodoroStage::Work => WORK_SECONDS as nat,
        PomodoroStage::ShortBreak => SHORT_BREAK_SECONDS as nat,
        PomodoroStage::LongBreak => LONG_BREAK_SECONDS as nat,
    }
}

/// A plain copy of the clock's fields, read together.
#[derive(Clone, Copy, PartialEq, Eq, Structural, Debug)]
pub struct ClockState {
    pub stage: PomodoroStage,
    /// Work cycles completed since the last long break.
    pub repetitions: u8,
    /// Long breaks completed.
    pub pomodoros: usize,
    /// Seconds spent in the current stage.
    pub seconds: usize,
    pub command: UserInputFlags,
}

impl ClockState {
    /// The states the clock can be in: time within the stage's length, the
    /// cycle within range, a short break only before the last cycle and a long
    /// break only after it.
    pub open spec fn wf(self) -> bool {
        &&& self.seconds < stage_seconds(self.stage)
        &&& self.repetitions <= LAST_CYCLE
        &&& self.stage == PomodoroStage::ShortBreak ==> self.repetitions < LAST_CYCLE
        &&& self.stage == PomodoroStage::LongBreak ==> self.repetitions == LAST_CYCLE
    }

    /// The state of a freshly started clock.
    pub open spec fn initial() -> ClockState {
        ClockState {
            stage: PomodoroStage::Work,
            repetitions: 0,
            pomodoros: 0,
            seconds: 0,
            command: UserInputFlags::Idle,
        }
    }

    /// The state after one running second, by the stage table: a stage whose
    /// time is up moves on with its time reset to zero.
    pub open spec fn advanced(self) -> ClockState {
        if self.seconds + 1 < stage_seconds(self.stage) {
            ClockState { seconds: (self.seconds + 1) as usize, ..self }
        } else {
            match self.stage {
                PomodoroStage::Work => if self.repetitions == LAST_CYCLE {
                    ClockState { stage: PomodoroStage::LongBreak, seconds: 0, ..self }
                } else {
                    ClockState { stage: PomodoroStage::ShortBreak, seconds: 0, ..self }
                },
                PomodoroStage::ShortBreak => ClockState {
                    stage: PomodoroStage::Work,
                    seconds: 0,
                    repetitions: (self.repetitions + 1) as u8,
                    ..self
                },
                PomodoroStage::LongBreak => ClockState {
                    stage: PomodoroStage::Work,
                    seconds: 0,
                    repetitions: 0,
                    pomodoros: if self.pomodoros < usize::MAX {
                        (self.pomodoros + 1) as usize
                    } else {
                        self.pomodoros
                    },
                    ..self
                },
            }
        }
    }

    /// What one driver tick does to the state: it advances only when no
    /// command holds it.
    pub open spec fn ticked(self) -> ClockState {
        if self.command == UserInputFlags::Idle {
            self.advanced()
        } else {
            self
        }
    }

    /// What one driver tick reports.
    pub open spec fn tick_action(self) -> TickAction {
        match self.command {
            UserInputFlags::Idle => TickAction::Advanced,
            UserInputFlags::Pause => TickAction::Paused,
            UserInputFlags::Stop => TickAction::Stopped,
        }
    }

    /// The state after a pause request: a stopped clock stays stopped.
    pub open spec fn paused(self) -> ClockState {
        if self.command == UserInputFlags::Stop {
            self
        } else {
            ClockState { command: UserInputFlags::Pause, ..self }
        }
    }

    /// The state after a resume request: a stopped clock stays stopped.
    pub open spec fn resumed(self) -> ClockState {
        if self.command == UserInputFlags::Stop {
            self
        } else {
            ClockState { command: UserInputFlags::Idle, ..self }
        }
    }

    /// The state after a stop request.
    pub open spec fn stopped(self) -> ClockState {
        ClockState { command: UserInputFlags::Stop, ..self }
    }
}

/// The clock's authoritative state.
pub struct Pomodoro {
    stage: PomodoroStage,
    repetitions: u8,
    pomodoros: usize,
    seconds: usize,
    input_flags: UserInputFlags,
}

impl View for Pomodoro {
    type V = ClockState;

    closed spec fn view(&self) -> ClockState {
        ClockState {
            stage: self.stage,
            repetitions: self.repetitions,
            pomodoros: self.pomodoros,
            seconds: self.seconds,
            command: self.input_flags,
        }
    }
}

impl Pomodoro {
    /// A clock at the start of its first work stage, with no command pending.
    pub fn new() -> (p: Pomodoro)
        ensures
            p@ == ClockState::initial(),
            p@.wf(),
    {
        Pomodoro {
            stage: PomodoroStage::Work,
            repetitions: 0,
            pomodoros: 0,
            seconds: 0,
            input_flags: UserInputFlags::Idle,
        }
    }

    /// All fields, read together.
    pub fn state(&self) -> (r: ClockState)
        ensures
            r == self@,
    {
        ClockState {
            stage: self.stage,
            repetitions: self.repetitions,
            pomodoros: self.pomodoros,
            seconds: self.seconds,
            command: self.input_flags,
        }
    }

    pub fn stage(&self) -> (r: &PomodoroStage)
        ensures
            *r == self@.stage,
    {
        &self.stage
    }

    pub fn repetitions(&self) -> (r: u8)
        ensures
            r == self@.repetitions,
    {
        self.repetitions
    }

    pub fn pomodoros(&self) -> (r: usize)
        ensures
            r == self@.pomodoros,
    {
        self.pomodoros
    }

    pub fn seconds(&self) -> (r: usize)
        ensures
            r == self@.seconds,
    {
        self.seconds
    }

    /// Records a pause request, unless the clock was stopped.
    pub fn request_pause(&mut self)
        ensures
            final(self)@ == old(self)@.paused(),
    {
        if self.input_flags != UserInputFlags::Stop {
            self.input_flags = UserInputFlags::Pause;
        }
    }

    /// Records a resume request, unless the clock was stopped.
    pub fn request_resume(&mut self)
        ensures
            final(self)@ == old(self)@.resumed(),
    {
        if self.input_flags != UserInputFlags::Stop {
            self.input_flags = UserInputFlags::Idle;
        }
    }

    /// Records a stop request; nothing takes it back.
    pub fn request_stop(&mut self)
        ensures
            final(self)@ == old(self)@.stopped(),
    {
        self.input_flags = UserInputFlags::Stop;
    }

    /// One driver tick: a pending pause or stop leaves the state as it is;
    /// otherwise one second passes and the stage table applies.
    pub fn advance(&mut self) -> (a: TickAction)
        requires
            old(self)@.wf(),
        ensures
            final(self)@ == old(self)@.ticked(),
            a == old(self)@.tick_action(),
            final(self)@.wf(),
    {
        match self.input_flags {
            UserInputFlags::Pause => TickAction::Paused,
            UserInputFlags::Stop => TickAction::Stopped,
            UserInputFlags::Idle => {
                self.seconds = self.seconds + 1;
                match self.stage {
                    PomodoroStage::Work => self.handle_work(),
                    PomodoroStage::ShortBreak => self.handle_short_break(),
                    PomodoroStage::LongBreak => self.handle_long_break(),
                }
                TickAction::Advanced
            },
        }
    }

    /// Ends a work stage whose time is up: into the long break after the
    /// last cycle, into a short break before it.
    fn handle_work(&mut self)
        requires
            old(self).stage == PomodoroStage::Work,
            old(self).repetitions <= LAST_CYCLE,
            1 <= old(self).seconds <= WORK_SECONDS,
        ensures
            old(self).seconds < WORK_SECONDS ==> *final(self) == *old(self),
            old(self).seconds == WORK_SECONDS && old(self).repetitions == LAST_CYCLE ==> (
            *final(self) == Pomodoro { stage: PomodoroStage::LongBreak, seconds: 0, ..*old(self) }),
            old(self).seconds == WORK_SECONDS && old(self).repetitions < LAST_CYCLE ==> (
            *final(self) == Pomodoro { stage: PomodoroStage::ShortBreak, seconds: 0, ..*old(self) }),
    {
        if self.seconds < WORK_SECONDS {
            return ;
        }
        if self.repetitions == LAST_CYCLE {
            self.start_long_break()
        } else {
            self.start_short_break()
        }
    }

    /// Ends a short break whose time is up: back to work, one cycle further.
    fn handle_short_break(&mut self)
        requires
            old(self).stage == PomodoroStage::ShortBreak,
            old(self).repetitions < LAST_CYCLE,
            1 <= old(self).seconds <= SHORT_BREAK_SECONDS,
        ensures
            old(self).seconds < SHORT_BREAK_SECONDS ==> *final(self) == *old(self),
            old(self).seconds == SHORT_BREAK_SECONDS ==> *final(self) == (Pomodoro {
                stage: PomodoroStage::Work,
                seconds: 0,
                repetitions: (old(self).repetitions + 1) as u8,
                ..*old(self)
            }),
    {
        if self.seconds >= SHORT_BREAK_SECONDS {
            self.start_work();
            self.repetitions = self.repetitions + 1;
        }
    }

    /// Ends a long break whose time is up: back to work at the first cycle,
    /// one pomodoro more.
    fn handle_long_break(&mut self)
        requires
            old(self).stage == PomodoroStage::LongBreak,
            1 <= old(self).seconds <= LONG_BREAK_SECONDS,
        ensures
            old(self).seconds < LONG_BREAK_SECONDS ==> *final(self) == *old(self),
            old(self).seconds == LONG_BREAK_SECONDS ==> *final(self) == (Pomodoro {
                stage: PomodoroStage::Work,
                seconds: 0,
                repetitions: 0,
                pomodoros: if old(self).pomodoros < usize::MAX {
                    (old(self).pomodoros + 1) as usize
                } else {
                    old(self).pomodoros
                },
                ..*old(self)
            }),
    {
        if self.seconds >= LONG_BREAK_SECONDS {
            self.start_work();
            self.pomodoros = self.pomodoros.saturating_add(1);
            self.repetitions = 0;
        }
    }

    fn start_work(&mut self)
        ensures
            *final(self) == (Pomodoro { stage: PomodoroStage::Work, seconds: 0, ..*old(self) }),
    {
        self.seconds = 0;
        self.stage = PomodoroStage::Work;
    }

    fn start_short_break(&mut self)
        ensures
            *final(self) == (Pomodoro {
                stage: PomodoroStage::ShortBreak,
                seconds: 0,
                ..*old(self)
            }),
    {
        self.seconds = 0;
        self.stage = PomodoroStage::ShortBreak;
    }

    fn start_long_break(&mut self)
        ensures
            *final(self) == (Pomodoro {
                stage: PomodoroStage::LongBreak,
                seconds: 0,
                ..*old(self)
            }),
    {
        self.seconds = 0;
        self.stage = PomodoroStage::LongBreak;
    }
}

/// The one failure of the engine: the shared state cannot be reached.
///
/// The handle's lock is verified and is never left held, so the functions on
/// a handle always succeed; their results keep this error so that callers
/// handle the case of an unreachable engine in one place.
#[derive(Clone, Copy, PartialEq, Eq, Structural, Debug)]
pub enum PomodoroError {
    PoisonedThread,
}

impl PomodoroError {
    /// The message shown for this error.
    pub fn message(&self) -> (r: &'static str) {
        match self {
            PomodoroError::PoisonedThread => "The Pomodoro thread was poisoned!",
        }
    }
}

/// What the shared lock keeps true of every state it holds.
pub struct ClockInvariant;

impl RwLockPredicate<Pomodoro> for ClockInvariant {
    open spec fn inv(self, v: Pomodoro) -> bool {
        v@.wf()
    }
}

/// The shared handle through which the driver and its callers reach one
/// clock: every access is exclusive for writers, and every state that any of
/// them can observe is well formed.
#[derive(Clone)]
pub struct PomodoroHandle {
    lock: Arc<RwLock<Pomodoro, ClockInvariant>>,
}

impl Pomodoro {
    /// A handle on a fresh clock (see `new`). The driver that moves it is
    /// whoever calls `tick` once a second. What any holder of the handle
    /// reads through it later is well formed (`ClockState::wf`), whatever the
    /// other holders did in between.
    pub fn new_handle() -> (h: PomodoroHandle) {
        PomodoroHandle { lock: Arc::new(RwLock::new(Pomodoro::new(), Ghost(ClockInvariant))) }
    }

    /// Pauses the clock's progression; a stopped clock stays stopped.
    pub fn pause(data: &PomodoroHandle) -> (r: Result<(), PomodoroError>)
        ensures
            r == Ok::<(), PomodoroError>(()),
    {
        let (mut state, guard) = data.lock.acquire_write();
        state.request_pause();
        guard.release_write(state);
        Ok(())
    }

    /// Lets the clock run on from where it was paused; a stopped clock stays
    /// stopped.
    pub fn resume(data: &PomodoroHandle) -> (r: Result<(), PomodoroError>)
        ensures
            r == Ok::<(), PomodoroError>(()),
    {
        let (mut state, guard) = data.lock.acquire_write();
        state.request_resume();
        guard.release_write(state);
        Ok(())
    }

    /// Stops the clock for good: the driver ends at its next tick.
    pub fn stop(data: &PomodoroHandle) -> (r: Result<(), PomodoroError>)
        ensures
            r == Ok::<(), PomodoroError>(()),
    {
        let (mut state, guard) = data.lock.acquire_write();
        state.request_stop();
        guard.release_write(state);
        Ok(())
    }

    /// Runs `func` on the clock's state under the lock, so that all it reads
    /// comes from one moment, and returns what it computed.
    pub fn lock_and<T, F: FnOnce(&Pomodoro) -> T>(data: &PomodoroHandle, func: F) -> (r: Result<
        T,
        PomodoroError,
    >)
        requires
            forall|p: &Pomodoro| p@.wf() ==> func.requires((p,)),
        ensures
            r is Ok,
            forall|t: T|
                r == Ok::<T, PomodoroError>(t) ==> exists|p: Pomodoro|
                    p@.wf() && func.ensures((&p,), t),
    {
        let guard = data.lock.acquire_read();
        let state = guard.borrow();
        let t = func(state);
        guard.release_read();
        Ok(t)
    }

    /// A copy of the clock's state, read in one go.
    pub fn snapshot(data: &PomodoroHandle) -> (r: Result<ClockState, PomodoroError>)
        ensures
            r is Ok,
            forall|s: ClockState| r == Ok::<ClockState, PomodoroError>(s) ==> s.wf(),
    {
        let guard = data.lock.acquire_read();
        let s = guard.borrow().state();
        guard.release_read();
        Ok(s)
    }

    /// The driver's work for one second: applies `advance` to the shared
    /// state under the lock and reports what it did.
    pub fn tick(data: &PomodoroHandle) -> (r: Result<TickAction, PomodoroError>)
        ensures
            r is Ok,
    {
        let (mut state, guard) = data.lock.acquire_write();
        let action = state.advance();
        guard.release_write(state);
        Ok(action)
    }
}

} // verus!
