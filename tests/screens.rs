use overfocus::input::{Target, UserInput};
use overfocus::pomodoro::{
    ClockState, Pomodoro, PomodoroStage, TickAction, UserInputFlags,
};
use overfocus::screens::{
    sub_rect, Area, LineStyle, PomodoroClockUI, PomodoroStarterUI, StyledLine, UIContext,
};
use overfocus::text::{decimal, decimal_two_digits};

fn texts(lines: &[StyledLine]) -> Vec<(String, LineStyle)> {
    lines.iter().map(|l| (l.text.clone(), l.style)).collect()
}

fn line(t: &str, s: LineStyle) -> (String, LineStyle) {
    (t.to_string(), s)
}

#[test]
fn decimal_writes_digits() {
    assert_eq!(decimal(0), "0");
    assert_eq!(decimal(7), "7");
    assert_eq!(decimal(1234), "1234");
    assert_eq!(decimal(u64::MAX), u64::MAX.to_string());
    assert_eq!(decimal_two_digits(5), "05");
    assert_eq!(decimal_two_digits(42), "42");
    assert_eq!(decimal_two_digits(123), "123");
}

#[test]
fn consume_matches_takes_a_matching_input() {
    let mut input = UserInput::Up;
    let r = input.consume_matches(|x| matches!(x, UserInput::Up), |x| (x, 5));
    assert_eq!(r, Some(5));
    assert_eq!(input, UserInput::Consumed);
    assert!(input.is_consumed());
}

#[test]
fn consume_matches_leaves_other_input() {
    let mut input = UserInput::Down;
    let r = input.consume_matches(|x| matches!(x, UserInput::Up), |x| (x, 5));
    assert_eq!(r, None);
    assert_eq!(input, UserInput::Down);
    assert!(!input.is_consumed());
}

#[test]
fn consume_matches_can_redirect() {
    let mut input = UserInput::Enter;
    let r = input.consume_matches(
        |x| *x == UserInput::Enter,
        |_| (UserInput::Goto(Target::Quit), ()),
    );
    assert_eq!(r, Some(()));
    assert_eq!(input, UserInput::Goto(Target::Quit));
    assert!(input.is_consumed());
    assert!(!UserInput::Idle.is_consumed());
}

#[test]
fn starter_menu_moves_and_enters() {
    let mut ui = PomodoroStarterUI::new();
    let mut input = UserInput::Enter;
    assert!(ui.handle_input(&mut input));
    assert_eq!(input, UserInput::Goto(Target::Pomodoro));
    let mut input = UserInput::Down;
    assert!(!ui.handle_input(&mut input));
    assert_eq!(input, UserInput::Consumed);
    let mut input = UserInput::Enter;
    assert!(ui.handle_input(&mut input));
    assert_eq!(input, UserInput::Goto(Target::Quit));
    let mut input = UserInput::Left;
    assert!(!ui.handle_input(&mut input));
    assert_eq!(input, UserInput::Left);
}

#[test]
fn starter_lines_show_stats_and_menu() {
    let mut ui = PomodoroStarterUI::new();
    ui.handle_context(UIContext::PomodoroClock { pomodoros: 3 });
    ui.handle_context(UIContext::PomodoroClock { pomodoros: 2 });
    assert_eq!(
        texts(&ui.get_spans()),
        vec![
            line("Max: 5", LineStyle::Regular),
            line("Cur: 5", LineStyle::Regular),
            line("Avg: 0", LineStyle::Regular),
            line("", LineStyle::Regular),
            line(">Start", LineStyle::Highlight),
            line("-Exit", LineStyle::Regular),
        ]
    );
    let mut input = UserInput::Down;
    ui.handle_input(&mut input);
    let lines = texts(&ui.get_spans());
    assert_eq!(lines[4], line("-Start", LineStyle::Regular));
    assert_eq!(lines[5], line(">Exit", LineStyle::Highlight));
}

#[test]
fn starter_count_stops_at_the_top() {
    let mut ui = PomodoroStarterUI::new();
    ui.handle_context(UIContext::PomodoroClock { pomodoros: 200 });
    ui.handle_context(UIContext::PomodoroClock { pomodoros: 100 });
    assert_eq!(texts(&ui.get_spans())[1], line("Cur: 255", LineStyle::Regular));
}

#[test]
fn stage_names() {
    assert_eq!(PomodoroClockUI::display_stage(PomodoroStage::Work, 0), "Work (1/3)");
    assert_eq!(PomodoroClockUI::display_stage(PomodoroStage::ShortBreak, 1), "Break (2/3)");
    assert_eq!(PomodoroClockUI::display_stage(PomodoroStage::LongBreak, 2), "Long Break");
}

#[test]
fn clock_lines_for_a_state() {
    let ui = PomodoroClockUI::new(Pomodoro::new_handle());
    let s = ClockState {
        stage: PomodoroStage::ShortBreak,
        repetitions: 1,
        pomodoros: 4,
        seconds: 125,
        command: UserInputFlags::Idle,
    };
    assert_eq!(
        texts(&ui.spans_for(&s)),
        vec![
            line("Pomodoros: 4", LineStyle::Regular),
            line("Stage: Break (2/3)", LineStyle::Regular),
            line("Elapsed: (2:05)", LineStyle::Regular),
            line("", LineStyle::Regular),
            line(">Pause", LineStyle::Highlight),
            line("-Stop and exit", LineStyle::Regular),
        ]
    );
}

#[test]
fn clock_screen_pauses_resumes_and_stops() {
    let handle = Pomodoro::new_handle();
    let mut ui = PomodoroClockUI::new(handle.clone());
    assert_eq!(ui.get_pause_text(), "Pause");
    let mut input = UserInput::Enter;
    assert!(ui.handle_input(&mut input));
    assert_eq!(input, UserInput::Consumed);
    assert_eq!(ui.get_pause_text(), "Resume");
    assert_eq!(Pomodoro::tick(&handle), Ok(TickAction::Paused));
    let lines = texts(&ui.get_spans().unwrap());
    assert_eq!(lines[4], line(">Resume", LineStyle::Highlight));

    let mut input = UserInput::Enter;
    ui.handle_input(&mut input);
    assert_eq!(Pomodoro::tick(&handle), Ok(TickAction::Advanced));
    assert_eq!(ui.get_pause_text(), "Pause");

    let mut input = UserInput::Down;
    ui.handle_input(&mut input);
    let mut input = UserInput::Enter;
    assert!(ui.handle_input(&mut input));
    assert_eq!(input, UserInput::Goto(Target::PopStack));
    assert_eq!(Pomodoro::tick(ui.clock()), Ok(TickAction::Stopped));
    let lines = texts(&ui.get_spans().unwrap());
    assert_eq!(lines[2], line("Elapsed: (0:01)", LineStyle::Regular));
    assert_eq!(lines[5], line(">Stop and exit", LineStyle::Highlight));
}

#[test]
fn sub_rect_centres() {
    let r = sub_rect(Area { x: 0, y: 3, width: 80, height: 24 }, (20, 8));
    assert_eq!(r, Area { x: 30, y: 11, width: 20, height: 8 });
    let small = sub_rect(Area { x: 0, y: 0, width: 4, height: 2 }, (20, 8));
    assert_eq!(small, Area { x: 0, y: 0, width: 20, height: 8 });
}
