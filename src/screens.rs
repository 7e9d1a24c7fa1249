use vstd::prelude::*;
use crate::input::{Target, UserInput};
use crate::pomodoro::{ClockState, Pomodoro, PomodoroError, PomodoroHandle, PomodoroStage};
use crate::text::{decimal, decimal_digits, decimal_two_digits, two_digits};

verus! {

/// How a line of a screen is drawn.
#[derive(Clone, Copy, PartialEq, Eq, Structural, Debug)]
pub enum LineStyle {
    Regular,
    Highlight,
}

/// One line of a screen.
#[derive(Clone, Debug)]
pub struct StyledLine {
    pub text: String,
    pub style: LineStyle,
}

impl View for StyledLine {
    type V = (Seq<char>, LineStyle);

    open spec fn view(&self) -> (Seq<char>, LineStyle) {
        (self.text@, self.style)
    }
}

/// The views of a list of lines.
pub open spec fn lines_view(lines: Seq<StyledLine>) -> Seq<(Seq<char>, LineStyle)> {
    lines.map_values(|l: StyledLine| l@)
}

/// What a screen hands to the one below it when it closes.
#[derive(Clone, Copy, PartialEq, Eq, Structural, Debug)]
pub enum UIContext {
    PomodoroClock { pomodoros: u8 },
}

/// The menu selection after an arrow key: up picks the first entry, down the
/// second.
pub open spec fn next_selected(selected: u8, input: UserInput) -> u8 {
    match input {
        UserInput::Up => if selected == 1 {
            0
        } else {
            selected
        },
        UserInput::Down => if selected == 0 {
            1
        } else {
            selected
        },
        _ => selected,
    }
}

fn move_selection(selected: u8, input: UserInput) -> (r: u8)
    ensures
        r == next_selected(selected, input),
{
    match input {
        UserInput::Up => if selected == 1 {
            0
        } else {
            selected
        },
        UserInput::Down => if selected == 0 {
            1
        } else {
            selected
        },
        _ => selected,
    }
}

/// The two menu lines, with a marker on the selected one.
pub open spec fn menu_lines(first: Seq<char>, second: Seq<char>, selected: u8) -> Seq<
    (Seq<char>, LineStyle),
> {
    if selected == 0 {
        seq![(">"@ + first, LineStyle::Highlight), ("-"@ + second, LineStyle::Regular)]
    } else {
        seq![("-"@ + first, LineStyle::Regular), (">"@ + second, LineStyle::Highlight)]
    }
}

fn labelled(label: &str, value: &str) -> (r: StyledLine)
    ensures
        r@ == (label@ + value@, LineStyle::Regular),
{
    StyledLine { text: String::from_str(label).concat(value), style: LineStyle::Regular }
}

fn menu(first: &str, second: &str, selected: u8, lines: &mut Vec<StyledLine>)
    ensures
        lines_view(final(lines)@) == lines_view(old(lines)@) + menu_lines(
            first@,
            second@,
            selected,
        ),
{
    let ghost start = lines@;
    if selected == 0 {
        lines.push(
            StyledLine { text: String::from_str(">").concat(first), style: LineStyle::Highlight },
        );
        lines.push(
            StyledLine { text: String::from_str("-").concat(second), style: LineStyle::Regular },
        );
    } else {
        lines.push(
            StyledLine { text: String::from_str("-").concat(first), style: LineStyle::Regular },
        );
        lines.push(
            StyledLine { text: String::from_str(">").concat(second), style: LineStyle::Highlight },
        );
    }
    assert(lines_view(lines@) =~= lines_view(start) + menu_lines(first@, second@, selected));
}

struct Stats {
    max: u8,
    cur: u8,
    avg: u8,
}

/// The starting screen: pomodoro statistics and a Start / Exit menu.
pub struct PomodoroStarterUI {
    stats: Stats,
    selected: u8,
}

/// The starting screen's lines.
pub open spec fn starter_lines(max: u8, cur: u8, avg: u8, selected: u8) -> Seq<
    (Seq<char>, LineStyle),
> {
    seq![
        ("Max: "@ + decimal_digits(max as nat), LineStyle::Regular),
        ("Cur: "@ + decimal_digits(cur as nat), LineStyle::Regular),
        ("Avg: "@ + decimal_digits(avg as nat), LineStyle::Regular),
        (""@, LineStyle::Regular),
    ] + menu_lines("Start"@, "Exit"@, selected)
}

impl PomodoroStarterUI {
    pub closed spec fn max(&self) -> u8 {
        self.stats.max
    }

    pub closed spec fn cur(&self) -> u8 {
        self.stats.cur
    }

    pub closed spec fn avg(&self) -> u8 {
        self.stats.avg
    }

    /// Which menu entry is selected: 0 for Start, 1 for Exit.
    pub closed spec fn selected(&self) -> u8 {
        self.selected
    }

    pub fn new() -> (s: Self)
        ensures
            s.max() == 0,
            s.cur() == 0,
            s.avg() == 0,
            s.selected() == 0,
    {
        PomodoroStarterUI { stats: Stats { max: 0, cur: 0, avg: 0 }, selected: 0 }
    }

    /// Reacts to this frame's input: the arrows move the selection, Enter
    /// turns into a request to open the clock (Start) or to quit (Exit). Returns
    /// whether Enter was taken, in which case the screen is not drawn.
    pub fn handle_input(&mut self, input: &mut UserInput) -> (entered: bool)
        ensures
            final(self).max() == old(self).max(),
            final(self).cur() == old(self).cur(),
            final(self).avg() == old(self).avg(),
            final(self).selected() == next_selected(old(self).selected(), *old(input)),
            entered == (*old(input) == UserInput::Enter),
            (*old(input) == UserInput::Up || *old(input) == UserInput::Down) ==> *final(input)
                == UserInput::Consumed,
            *old(input) == UserInput::Enter ==> *final(input) == UserInput::Goto(
                if old(self).selected() == 0 {
                    Target::Pomodoro
                } else {
                    Target::Quit
                },
            ),
            !(*old(input) is Up || *old(input) is Down || *old(input) is Enter) ==> *final(input)
                == *old(input),
    {
        match *input {
            UserInput::Up | UserInput::Down => {
                self.selected = move_selection(self.selected, *input);
                *input = UserInput::Consumed;
                false
            },
            UserInput::Enter => {
                *input = UserInput::Goto(
                    if self.selected == 0 {
                        Target::Pomodoro
                    } else {
                        Target::Quit
                    },
                );
                true
            },
            _ => false,
        }
    }

    /// Counts the pomodoros of a clock screen that closed, and keeps the
    /// maximum up to date; the count stops at `u8::MAX`.
    pub fn handle_context(&mut self, ctx: UIContext)
        ensures
            ({
                let UIContext::PomodoroClock { pomodoros } = ctx;
                let cur = if old(self).cur() + pomodoros <= u8::MAX {
                    (old(self).cur() + pomodoros) as u8
                } else {
                    u8::MAX
                };
                &&& final(self).cur() == cur
                &&& final(self).max() == if old(self).max() < cur {
                    cur
                } else {
                    old(self).max()
                }
            }),
            final(self).avg() == old(self).avg(),
            final(self).selected() == old(self).selected(),
    {
        let UIContext::PomodoroClock { pomodoros } = ctx;
        self.stats.cur = self.stats.cur.saturating_add(pomodoros);
        if self.stats.max < self.stats.cur {
            self.stats.max = self.stats.cur;
        }
    }

    /// The screen's lines.
    pub fn get_spans(&self) -> (r: Vec<StyledLine>)
        ensures
            lines_view(r@) == starter_lines(
                self.max(),
                self.cur(),
                self.avg(),
                self.selected(),
            ),
    {
        let mut lines: Vec<StyledLine> = Vec::new();
        lines.push(labelled("Max: ", decimal(self.stats.max as u64).as_str()));
        lines.push(labelled("Cur: ", decimal(self.stats.cur as u64).as_str()));
        lines.push(labelled("Avg: ", decimal(self.stats.avg as u64).as_str()));
        lines.push(StyledLine { text: String::from_str(""), style: LineStyle::Regular });
        let ghost head = lines@;
        assert(lines_view(head) =~= seq![
            ("Max: "@ + decimal_digits(self.stats.max as nat), LineStyle::Regular),
            ("Cur: "@ + decimal_digits(self.stats.cur as nat), LineStyle::Regular),
            ("Avg: "@ + decimal_digits(self.stats.avg as nat), LineStyle::Regular),
            (""@, LineStyle::Regular),
        ]);
        menu("Start", "Exit", self.selected, &mut lines);
        lines
    }
}

/// How the clock screen names a stage; `reps` is the cycle, counted from 0.
pub open spec fn stage_text(stage: PomodoroStage, reps: u8) -> Seq<char> {
    match stage {
        PomodoroStage::Work => "Work ("@ + decimal_digits(reps as nat + 1) + "/3)"@,
        PomodoroStage::ShortBreak => "Break ("@ + decimal_digits(reps as nat + 1) + "/3)"@,
        PomodoroStage::LongBreak => "Long Break"@,
    }
}

/// The label of the first menu entry of the clock screen.
pub open spec fn pause_text(paused: bool) -> Seq<char> {
    if paused {
        "Resume"@
    } else {
        "Pause"@
    }
}

/// The clock screen's lines for a given state of the clock.
pub open spec fn clock_lines(s: ClockState, selected: u8, paused: bool) -> Seq<
    (Seq<char>, LineStyle),
> {
    seq![
        ("Pomodoros: "@ + decimal_digits(s.pomodoros as nat), LineStyle::Regular),
        ("Stage: "@ + stage_text(s.stage, s.repetitions), LineStyle::Regular),
        ("Elapsed: ("@ + decimal_digits(s.seconds as nat / 60) + ":"@ + two_digits(
            s.seconds as nat % 60,
        ) + ")"@, LineStyle::Regular),
        (""@, LineStyle::Regular),
    ] + menu_lines(pause_text(paused), "Stop and exit"@, selected)
}

/// The running clock's screen: the clock's progress and a Pause (or Resume) /
/// Stop menu.
pub struct PomodoroClockUI {
    clock: PomodoroHandle,
    selected: u8,
    paused: bool,
}

impl PomodoroClockUI {
    /// Which menu entry is selected: 0 for Pause / Resume, 1 for Stop.
    pub closed spec fn selected(&self) -> u8 {
        self.selected
    }

    /// Whether the user has paused the clock from this screen.
    pub closed spec fn paused(&self) -> bool {
        self.paused
    }

    /// A screen on a started clock.
    pub fn new(clock: PomodoroHandle) -> (s: Self)
        ensures
            s.selected() == 0,
            !s.paused(),
    {
        Self { clock, selected: 0, paused: false }
    }

    /// The clock this screen shows.
    pub fn clock(&self) -> (r: &PomodoroHandle) {
        &self.clock
    }

    /// Reacts to this frame's input: the arrows move the selection; Enter on
    /// Stop stops the clock and asks to close the screen, Enter on Pause /
    /// Resume pauses or resumes the clock. Returns whether Enter was taken, in
    /// which case the screen is not drawn.
    pub fn handle_input(&mut self, input: &mut UserInput) -> (entered: bool)
        ensures
            entered == (*old(input) == UserInput::Enter),
            final(self).selected() == next_selected(old(self).selected(), *old(input)),
            (*old(input) == UserInput::Up || *old(input) == UserInput::Down) ==> *final(input)
                == UserInput::Consumed && final(self).paused() == old(self).paused(),
            *old(input) == UserInput::Enter && old(self).selected() == 1 ==> *final(input)
                == UserInput::Goto(Target::PopStack) && final(self).paused()
                == old(self).paused(),
            *old(input) == UserInput::Enter && old(self).selected() != 1 ==> *final(input)
                == UserInput::Consumed && final(self).paused() == !old(self).paused(),
            !(*old(input) is Up || *old(input) is Down || *old(input) is Enter) ==> *final(input)
                == *old(input) && final(self).paused() == old(self).paused(),
    {
        match *input {
            UserInput::Up | UserInput::Down => {
                self.selected = move_selection(self.selected, *input);
                *input = UserInput::Consumed;
                false
            },
            UserInput::Enter => {
                if self.selected == 1 {
                    *input = UserInput::Goto(Target::PopStack);
                    let _ = Pomodoro::stop(&self.clock);
                } else {
                    *input = UserInput::Consumed;
                    if self.paused {
                        let _ = Pomodoro::resume(&self.clock);
                    } else {
                        let _ = Pomodoro::pause(&self.clock);
                    }
                    self.paused = !self.paused;
                }
                true
            },
            _ => false,
        }
    }

    pub fn get_pause_text(&self) -> (r: &'static str)
        ensures
            r@ == pause_text(self.paused()),
    {
        if self.paused {
            "Resume"
        } else {
            "Pause"
        }
    }

    pub fn display_stage(stage: PomodoroStage, reps: u8) -> (r: String)
        ensures
            r@ == stage_text(stage, reps),
    {
        match stage {
            PomodoroStage::Work => String::from_str("Work (").concat(
                decimal(reps as u64 + 1).as_str(),
            ).concat("/3)"),
            PomodoroStage::ShortBreak => String::from_str("Break (").concat(
                decimal(reps as u64 + 1).as_str(),
            ).concat("/3)"),
            PomodoroStage::LongBreak => String::from_str("Long Break"),
        }
    }

    /// The screen's lines for the clock state `s`.
    pub fn spans_for(&self, s: &ClockState) -> (r: Vec<StyledLine>)
        ensures
            lines_view(r@) == clock_lines(*s, self.selected(), self.paused()),
    {
        let secs = s.seconds as u64;
        let mut elapsed = String::from_str("Elapsed: (").concat(decimal(secs / 60).as_str());
        elapsed.append(":");
        elapsed.append(decimal_two_digits(secs % 60).as_str());
        elapsed.append(")");
        let mut lines: Vec<StyledLine> = Vec::new();
        lines.push(labelled("Pomodoros: ", decimal(s.pomodoros as u64).as_str()));
        lines.push(
            labelled("Stage: ", Self::display_stage(s.stage, s.repetitions).as_str()),
        );
        lines.push(StyledLine { text: elapsed, style: LineStyle::Regular });
        lines.push(StyledLine { text: String::from_str(""), style: LineStyle::Regular });
        let ghost head = lines@;
        assert(lines_view(head) =~= seq![
            ("Pomodoros: "@ + decimal_digits(s.pomodoros as nat), LineStyle::Regular),
            ("Stage: "@ + stage_text(s.stage, s.repetitions), LineStyle::Regular),
            ("Elapsed: ("@ + decimal_digits(s.seconds as nat / 60) + ":"@ + two_digits(
                s.seconds as nat % 60,
            ) + ")"@, LineStyle::Regular),
            (""@, LineStyle::Regular),
        ]);
        menu(self.get_pause_text(), "Stop and exit", self.selected, &mut lines);
        lines
    }

    /// The screen's lines for the clock as it is now, read in one go.
    pub fn get_spans(&self) -> (r: Result<Vec<StyledLine>, PomodoroError>)
        ensures
            r is Ok,
            forall|lines: Vec<StyledLine>|
                r == Ok::<Vec<StyledLine>, PomodoroError>(lines) ==> exists|s: ClockState|
                    s.wf() && lines_view(lines@) == clock_lines(
                        s,
                        self.selected(),
                        self.paused(),
                    ),
    {
        match Pomodoro::snapshot(&self.clock) {
            Ok(s) => {
                let lines = self.spans_for(&s);
                assert(s.wf() && lines_view(lines@) == clock_lines(
                    s,
                    self.selected(),
                    self.paused(),
                ));
                Ok(lines)
            },
            Err(e) => Err(e),
        }
    }
}

/// A rectangle of the terminal, in cells.
#[derive(Clone, Copy, PartialEq, Eq, Structural, Debug)]
pub struct Area {
    pub x: u16,
    pub y: u16,
    pub width: u16,
    pub height: u16,
}

/// `a + b - c` on `u16`, each step stopping at the type's bounds.
pub open spec fn shift(a: u16, b: u16, c: u16) -> u16 {
    let up = if a + b <= u16::MAX {
        (a + b) as u16
    } else {
        u16::MAX
    };
    if up >= c {
        (up - c) as u16
    } else {
        0
    }
}

/// An area of `size` (width, height) centred in `rect`.
pub fn sub_rect(rect: Area, size: (u16, u16)) -> (r: Area)
    ensures
        r.x == shift(rect.x, rect.width / 2, size.0 / 2),
        r.y == shift(rect.y, rect.height / 2, size.1 / 2),
        r.width == size.0,
        r.height == size.1,
{
    Area {
        x: rect.x.saturating_add(rect.width / 2).saturating_sub(size.0 / 2),
        y: rect.y.saturating_add(rect.height / 2).saturating_sub(size.1 / 2),
        width: size.0,
        height: size.1,
    }
}

} // verus!
