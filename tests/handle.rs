use overfocus::pomodoro::{ClockState, Pomodoro, PomodoroStage, TickAction, UserInputFlags};

fn tick_n(h: &overfocus::pomodoro::PomodoroHandle, n: usize) {
    for _ in 0..n {
        assert_eq!(Pomodoro::tick(h), Ok(TickAction::Advanced));
    }
}

fn snap(h: &overfocus::pomodoro::PomodoroHandle) -> ClockState {
    Pomodoro::snapshot(h).unwrap()
}

#[test]
fn scenario_short_break_after_first_work() {
    let h = Pomodoro::new_handle();
    tick_n(&h, 1500);
    let s = snap(&h);
    assert_eq!((s.stage, s.seconds, s.repetitions), (PomodoroStage::ShortBreak, 0, 0));
}

#[test]
fn scenario_back_to_work_after_short_break() {
    let h = Pomodoro::new_handle();
    tick_n(&h, 1500);
    tick_n(&h, 300);
    let s = snap(&h);
    assert_eq!((s.stage, s.seconds, s.repetitions), (PomodoroStage::Work, 0, 1));
}

#[test]
fn scenario_long_break_after_third_work() {
    let h = Pomodoro::new_handle();
    for _ in 0..2 {
        tick_n(&h, 1500);
        tick_n(&h, 300);
    }
    assert_eq!(snap(&h).repetitions, 2);
    tick_n(&h, 1500);
    let s = snap(&h);
    assert_eq!((s.stage, s.seconds, s.repetitions), (PomodoroStage::LongBreak, 0, 2));
}

#[test]
fn scenario_pomodoro_after_long_break() {
    let h = Pomodoro::new_handle();
    for _ in 0..2 {
        tick_n(&h, 1500);
        tick_n(&h, 300);
    }
    tick_n(&h, 1500);
    tick_n(&h, 1800);
    let s = snap(&h);
    assert_eq!(
        (s.stage, s.seconds, s.repetitions, s.pomodoros),
        (PomodoroStage::Work, 0, 0, 1)
    );
}

#[test]
fn scenario_pause_resume_is_identity() {
    let h = Pomodoro::new_handle();
    tick_n(&h, 5);
    let before = snap(&h);
    assert_eq!(Pomodoro::pause(&h), Ok(()));
    assert_eq!(Pomodoro::resume(&h), Ok(()));
    assert_eq!(snap(&h), before);
}

#[test]
fn paused_handle_does_not_tick() {
    let h = Pomodoro::new_handle();
    tick_n(&h, 3);
    Pomodoro::pause(&h).unwrap();
    Pomodoro::pause(&h).unwrap();
    for _ in 0..50 {
        assert_eq!(Pomodoro::tick(&h), Ok(TickAction::Paused));
    }
    let s = snap(&h);
    assert_eq!((s.stage, s.seconds), (PomodoroStage::Work, 3));
    Pomodoro::resume(&h).unwrap();
    tick_n(&h, 1);
    assert_eq!(snap(&h).seconds, 4);
}

#[test]
fn stopped_handle_stays_stopped() {
    let h = Pomodoro::new_handle();
    let other = h.clone();
    tick_n(&h, 2);
    assert_eq!(Pomodoro::stop(&other), Ok(()));
    assert_eq!(Pomodoro::tick(&h), Ok(TickAction::Stopped));
    Pomodoro::pause(&h).unwrap();
    Pomodoro::resume(&h).unwrap();
    assert_eq!(snap(&h).command, UserInputFlags::Stop);
    assert_eq!(Pomodoro::tick(&h), Ok(TickAction::Stopped));
    assert_eq!(snap(&h).seconds, 2);
}

#[test]
fn lock_and_reads_fields_together() {
    let h = Pomodoro::new_handle();
    tick_n(&h, 61);
    let read = Pomodoro::lock_and(&h, |p: &Pomodoro| {
        (p.seconds(), p.repetitions(), p.pomodoros(), *p.stage())
    });
    assert_eq!(read, Ok((61, 0, 0, PomodoroStage::Work)));
}

#[test]
fn clones_share_one_clock() {
    let h = Pomodoro::new_handle();
    let driver = h.clone();
    tick_n(&driver, 9);
    assert_eq!(snap(&h).seconds, 9);
}

#[test]
fn error_has_a_message() {
    assert_eq!(
        overfocus::pomodoro::PomodoroError::PoisonedThread.message(),
        "The Pomodoro thread was poisoned!"
    );
}
