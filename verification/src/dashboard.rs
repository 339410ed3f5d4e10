//! The live dashboard's decisions: what each server line, key press and
//! shutdown signal does to the log, the scroll position and the command box,
//! and what is sent to the server.

use vstd::prelude::*;
use crate::text::{pop_char, push_char};

verus! {

/// The keys the dashboard reacts to; every other key is `Other`.
#[derive(Clone, Copy, Debug, PartialEq, Eq, Structural)]
pub enum DashboardKey {
    Up,
    Down,
    Char(char),
    Backspace,
    Enter,
    Other,
}

/// What happened since the dashboard last decided.
pub enum DashboardEvent {
    /// The server wrote a line to its standard output.
    ServerLine(String),
    /// The server wrote a line to its standard error.
    ServerWarning(String),
    /// The server's standard output ended.
    StdoutClosed,
    /// The server's standard error ended.
    StderrClosed,
    /// Waiting on the server process returned: `true` when it exited,
    /// `false` when waiting failed.
    ServerExited(bool),
    /// The once-a-second statistics timer fired.
    StatsTick,
    /// A key was pressed.
    Key(DashboardKey),
    /// Shutting down took longer than allowed.
    ShutdownTimedOut,
}

/// What the dashboard asks of its surroundings.
pub enum DashboardAction {
    Nothing,
    /// Write this text to the server's console.
    Send(String),
    /// Kill the server process.
    Kill,
}

/// Where the dashboard is in its life.
#[derive(Clone, Copy, Debug, PartialEq, Eq, Structural)]
pub enum Phase {
    Running,
    /// `stop` was sent; the dashboard waits for the process to exit and its
    /// output to end.
    ShuttingDown { exited: bool, stdout_closed: bool, stderr_closed: bool },
    Finished,
}

/// The dashboard's state. `reserved_rows` is the number of terminal rows that
/// are not log (frames, statistics, command box); `command_box` tells whether
/// typed text is collected and sent.
pub struct Dashboard {
    pub log_lines: Vec<String>,
    pub scroll_offset: u16,
    pub auto_scroll: bool,
    pub input: String,
    pub phase: Phase,
    pub reserved_rows: u16,
    pub command_box: bool,
}

/// The dashboard's state as plain values.
#[verifier::ext_equal]
pub struct DashboardView {
    pub log: Seq<Seq<char>>,
    pub scroll_offset: u16,
    pub auto_scroll: bool,
    pub input: Seq<char>,
    pub phase: Phase,
    pub reserved_rows: u16,
    pub command_box: bool,
}

/// An event as plain values.
pub enum EventView {
    ServerLine(Seq<char>),
    ServerWarning(Seq<char>),
    StdoutClosed,
    StderrClosed,
    ServerExited(bool),
    StatsTick,
    Key(DashboardKey),
    ShutdownTimedOut,
}

/// An action as plain values.
pub enum ActionView {
    Nothing,
    Send(Seq<char>),
    Kill,
}

impl View for Dashboard {
    type V = DashboardView;

    open spec fn view(&self) -> DashboardView {
        DashboardView {
            log: self.log_lines@.map_values(|l: String| l@),
            scroll_offset: self.scroll_offset,
            auto_scroll: self.auto_scroll,
            input: self.input@,
            phase: self.phase,
            reserved_rows: self.reserved_rows,
            command_box: self.command_box,
        }
    }
}

impl View for DashboardEvent {
    type V = EventView;

    open spec fn view(&self) -> EventView {
        match self {
            DashboardEvent::ServerLine(l) => EventView::ServerLine(l@),
            DashboardEvent::ServerWarning(l) => EventView::ServerWarning(l@),
            DashboardEvent::StdoutClosed => EventView::StdoutClosed,
            DashboardEvent::StderrClosed => EventView::StderrClosed,
            DashboardEvent::ServerExited(ok) => EventView::ServerExited(*ok),
            DashboardEvent::StatsTick => EventView::StatsTick,
            DashboardEvent::Key(k) => EventView::Key(*k),
            DashboardEvent::ShutdownTimedOut => EventView::ShutdownTimedOut,
        }
    }
}

impl View for DashboardAction {
    type V = ActionView;

    open spec fn view(&self) -> ActionView {
        match self {
            DashboardAction::Nothing => ActionView::Nothing,
            DashboardAction::Send(t) => ActionView::Send(t@),
            DashboardAction::Kill => ActionView::Kill,
        }
    }
}

/// `a - b`, or zero when `b` is larger.
pub open spec fn sat_sub(a: int, b: int) -> int {
    if a > b {
        a - b
    } else {
        0
    }
}

/// The scroll offset that shows the end of a log of `len` lines in a
/// terminal `height` rows high of which `reserved` are not log. The line
/// count is taken modulo 2^16, as the offset is a 16-bit number.
pub open spec fn bottom_offset(len: nat, height: u16, reserved: u16) -> u16 {
    sat_sub((len % 65536) as int, sat_sub(height as int, reserved as int)) as u16
}

/// The state with `auto_scroll` applied: when it is on, the view is scrolled
/// to the end of the log.
pub open spec fn rescrolled(d: DashboardView, height: u16) -> DashboardView {
    if d.auto_scroll {
        DashboardView { scroll_offset: bottom_offset(d.log.len(), height, d.reserved_rows), ..d }
    } else {
        d
    }
}

/// What an event does while the server runs, before the scroll is updated;
/// the last part tells whether the scroll is updated afterwards.
pub open spec fn running_step(d: DashboardView, e: EventView) -> (DashboardView, ActionView, bool) {
    match e {
        EventView::ServerLine(l) => (DashboardView { log: d.log.push(l), ..d }, ActionView::Nothing, true),
        EventView::ServerWarning(l) => (
            DashboardView { log: d.log.push("[warn] "@ + l), ..d },
            ActionView::Nothing,
            true,
        ),
        EventView::Key(DashboardKey::Up) => (
            DashboardView {
                auto_scroll: false,
                scroll_offset: sat_sub(d.scroll_offset as int, 1) as u16,
                ..d
            },
            ActionView::Nothing,
            true,
        ),
        EventView::Key(DashboardKey::Down) => (
            DashboardView {
                scroll_offset: if d.scroll_offset < u16::MAX {
                    (d.scroll_offset + 1) as u16
                } else {
                    u16::MAX
                },
                ..d
            },
            ActionView::Nothing,
            true,
        ),
        EventView::Key(DashboardKey::Char(c)) => if c == 'q' && d.input.len() == 0 {
            (
                DashboardView {
                    phase: Phase::ShuttingDown { exited: false, stdout_closed: false, stderr_closed: false },
                    ..d
                },
                ActionView::Send("stop\n"@),
                false,
            )
        } else if d.command_box {
            (DashboardView { input: d.input.push(c), ..d }, ActionView::Nothing, true)
        } else {
            (d, ActionView::Nothing, true)
        },
        EventView::Key(DashboardKey::Backspace) => if d.command_box && d.input.len() > 0 {
            (DashboardView { input: d.input.drop_last(), ..d }, ActionView::Nothing, true)
        } else {
            (d, ActionView::Nothing, true)
        },
        EventView::Key(DashboardKey::Enter) => if d.command_box && d.input.len() > 0 {
            (
                DashboardView { log: d.log.push("> "@ + d.input), input: Seq::empty(), ..d },
                ActionView::Send(d.input + "\n"@),
                true,
            )
        } else {
            (d, ActionView::Nothing, true)
        },
        _ => (d, ActionView::Nothing, true),
    }
}

/// What an event does while the server shuts down, before the scroll is
/// updated; the last part tells whether the scroll is updated afterwards.
/// Once the process has exited and both its outputs have ended, the
/// dashboard is finished; if shutting down times out, the process is killed.
pub open spec fn shutdown_step(
    d: DashboardView,
    exited: bool,
    stdout_closed: bool,
    stderr_closed: bool,
    e: EventView,
) -> (DashboardView, ActionView, bool) {
    match e {
        EventView::ShutdownTimedOut => (DashboardView { phase: Phase::Finished, ..d }, ActionView::Kill, false),
        _ => {
            let (log, ex, so, se) = match e {
                EventView::ServerExited(ok) => if !exited {
                    (d.log, ok, stdout_closed, stderr_closed)
                } else {
                    (d.log, exited, stdout_closed, stderr_closed)
                },
                EventView::ServerLine(l) => if !stdout_closed {
                    (d.log.push(l), exited, stdout_closed, stderr_closed)
                } else {
                    (d.log, exited, stdout_closed, stderr_closed)
                },
                EventView::StdoutClosed => (d.log, exited, true, stderr_closed),
                EventView::ServerWarning(l) => if !stderr_closed {
                    (d.log.push("[warn] "@ + l), exited, stdout_closed, stderr_closed)
                } else {
                    (d.log, exited, stdout_closed, stderr_closed)
                },
                EventView::StderrClosed => (d.log, exited, stdout_closed, true),
                _ => (d.log, exited, stdout_closed, stderr_closed),
            };
            let phase = if ex && so && se {
                Phase::Finished
            } else {
                Phase::ShuttingDown { exited: ex, stdout_closed: so, stderr_closed: se }
            };
            (DashboardView { log, phase, ..d }, ActionView::Nothing, true)
        },
    }
}

/// The dashboard's next state and action after an event, with a terminal
/// `height` rows high.
pub open spec fn dashboard_next(d: DashboardView, e: EventView, height: u16) -> (DashboardView, ActionView) {
    let (n, a, scroll) = match d.phase {
        Phase::Running => running_step(d, e),
        Phase::ShuttingDown { exited, stdout_closed, stderr_closed } => shutdown_step(
            d,
            exited,
            stdout_closed,
            stderr_closed,
            e,
        ),
        Phase::Finished => (d, ActionView::Nothing, false),
    };
    (if scroll {
        rescrolled(n, height)
    } else {
        n
    }, a)
}

impl Dashboard {
    /// A dashboard with an empty log, scrolling along with it, an empty
    /// command box, while the server runs.
    pub fn new(reserved_rows: u16, command_box: bool) -> (d: Dashboard)
        ensures
            d@.log.len() == 0,
            d@.scroll_offset == 0,
            d@.auto_scroll,
            d@.input.len() == 0,
            d@.phase == Phase::Running,
            d@.reserved_rows == reserved_rows,
            d@.command_box == command_box,
    {
        Dashboard {
            log_lines: Vec::new(),
            scroll_offset: 0,
            auto_scroll: true,
            input: String::new(),
            phase: Phase::Running,
            reserved_rows,
            command_box,
        }
    }

    fn push_log(&mut self, line: String)
        ensures
            final(self)@ == (DashboardView { log: old(self)@.log.push(line@), ..old(self)@ }),
    {
        self.log_lines.push(line);
        assert(self.log_lines@.map_values(|l: String| l@) =~= old(self)@.log.push(line@));
    }

    fn rescroll(&mut self, height: u16)
        ensures
            final(self)@ == rescrolled(old(self)@, height),
    {
        if self.auto_scroll {
            let visible = height.saturating_sub(self.reserved_rows);
            let len = (self.log_lines.len() % 65536) as u16;
            self.scroll_offset = len.saturating_sub(visible);
        }
    }

    fn running_step(&mut self, event: DashboardEvent) -> (r: (DashboardAction, bool))
        requires
            old(self).phase == Phase::Running,
        ensures
            (final(self)@, r.0@, r.1) == running_step(old(self)@, event@),
    {
        match event {
            DashboardEvent::ServerLine(l) => {
                self.push_log(l);
                (DashboardAction::Nothing, true)
            },
            DashboardEvent::ServerWarning(l) => {
                let mut w = String::from_str("[warn] ");
                w.append(l.as_str());
                self.push_log(w);
                (DashboardAction::Nothing, true)
            },
            DashboardEvent::Key(DashboardKey::Up) => {
                self.auto_scroll = false;
                self.scroll_offset = self.scroll_offset.saturating_sub(1);
                (DashboardAction::Nothing, true)
            },
            DashboardEvent::Key(DashboardKey::Down) => {
                self.scroll_offset = self.scroll_offset.saturating_add(1);
                (DashboardAction::Nothing, true)
            },
            DashboardEvent::Key(DashboardKey::Char(c)) => {
                if c == 'q' && self.input.as_str().is_empty() {
                    self.phase =
                        Phase::ShuttingDown { exited: false, stdout_closed: false, stderr_closed: false };
                    (DashboardAction::Send(String::from_str("stop\n")), false)
                } else if self.command_box {
                    push_char(&mut self.input, c);
                    (DashboardAction::Nothing, true)
                } else {
                    (DashboardAction::Nothing, true)
                }
            },
            DashboardEvent::Key(DashboardKey::Backspace) => {
                if self.command_box {
                    pop_char(&mut self.input);
                }
                (DashboardAction::Nothing, true)
            },
            DashboardEvent::Key(DashboardKey::Enter) => {
                if self.command_box && !self.input.as_str().is_empty() {
                    let mut command = self.input.clone();
                    command.append("\n");
                    let mut echo = String::from_str("> ");
                    echo.append(self.input.as_str());
                    self.push_log(echo);
                    self.input = String::new();
                    (DashboardAction::Send(command), true)
                } else {
                    (DashboardAction::Nothing, true)
                }
            },
            _ => (DashboardAction::Nothing, true),
        }
    }

    fn shutdown_step(
        &mut self,
        exited: bool,
        stdout_closed: bool,
        stderr_closed: bool,
        event: DashboardEvent,
    ) -> (r: (DashboardAction, bool))
        requires
            old(self).phase == (Phase::ShuttingDown { exited, stdout_closed, stderr_closed }),
        ensures
            (final(self)@, r.0@, r.1) == shutdown_step(
                old(self)@,
                exited,
                stdout_closed,
                stderr_closed,
                event@,
            ),
    {
        let mut ex = exited;
        let mut so = stdout_closed;
        let mut se = stderr_closed;
        match event {
            DashboardEvent::ShutdownTimedOut => {
                self.phase = Phase::Finished;
                return (DashboardAction::Kill, false);
            },
            DashboardEvent::ServerExited(ok) => {
                if !exited {
                    ex = ok;
                }
            },
            DashboardEvent::ServerLine(l) => {
                if !stdout_closed {
                    self.push_log(l);
                }
            },
            DashboardEvent::StdoutClosed => {
                so = true;
            },
            DashboardEvent::ServerWarning(l) => {
                if !stderr_closed {
                    let mut w = String::from_str("[warn] ");
                    w.append(l.as_str());
                    self.push_log(w);
                }
            },
            DashboardEvent::StderrClosed => {
                se = true;
            },
            _ => {},
        }
        self.phase = if ex && so && se {
            Phase::Finished
        } else {
            Phase::ShuttingDown { exited: ex, stdout_closed: so, stderr_closed: se }
        };
        (DashboardAction::Nothing, true)
    }

    /// Decides what an event does, with a terminal `height` rows high: the new
    /// state, and what is to be done.
    pub fn step(&mut self, event: DashboardEvent, height: u16) -> (a: DashboardAction)
        ensures
            (final(self)@, a@) == dashboard_next(old(self)@, event@, height),
    {
        let (a, scroll) = match self.phase {
            Phase::Running => self.running_step(event),
            Phase::ShuttingDown { exited, stdout_closed, stderr_closed } => self.shutdown_step(
                exited,
                stdout_closed,
                stderr_closed,
                event,
            ),
            Phase::Finished => (DashboardAction::Nothing, false),
        };
        if scroll {
            self.rescroll(height);
        }
        a
    }
}

/// The log only grows: every event keeps the lines already shown, in order,
/// and can only add lines after them; the layout settings never change.
pub proof fn law_log_only_grows(d: DashboardView, e: EventView, height: u16)
    ensures
        ({
            let (n, a) = dashboard_next(d, e, height);
            &&& d.log.len() <= n.log.len()
            &&& n.log.subrange(0, d.log.len() as int) == d.log
            &&& n.reserved_rows == d.reserved_rows
            &&& n.command_box == d.command_box
        }),
{
    let (n, a) = dashboard_next(d, e, height);
    assert(n.log.subrange(0, d.log.len() as int) =~= d.log);
}

/// Once the user has scrolled up, the dashboard no longer follows the log.
pub proof fn law_scrolling_up_stops_following(d: DashboardView, e: EventView, height: u16)
    requires
        !d.auto_scroll || (e == EventView::Key(DashboardKey::Up) && d.phase is Running),
    ensures
        !dashboard_next(d, e, height).0.auto_scroll,
{
}

/// While the dashboard follows the log, every event that it draws after
/// leaves the view scrolled to the end of the log: all events while the
/// server runs except the quitting key, and all events while it shuts down
/// except the time-out.
pub proof fn law_follows_the_log(d: DashboardView, e: EventView, height: u16)
    requires
        d.phase is Running ==> !(e == EventView::Key(DashboardKey::Char('q')) && d.input.len() == 0),
        d.phase is ShuttingDown ==> e !is ShutdownTimedOut,
        d.phase !is Finished,
    ensures
        ({
            let n = dashboard_next(d, e, height).0;
            n.auto_scroll ==> n.scroll_offset == bottom_offset(n.log.len(), height, n.reserved_rows)
        }),
{
}

/// Enter sends the command box's text, followed by a newline, to the
/// server, echoes it into the log after `> `, and empties the box.
pub proof fn law_enter_sends_command(d: DashboardView, height: u16)
    requires
        d.phase is Running,
        d.command_box,
        d.input.len() > 0,
    ensures
        ({
            let (n, a) = dashboard_next(d, EventView::Key(DashboardKey::Enter), height);
            &&& a == ActionView::Send(d.input + "\n"@)
            &&& n.log == d.log.push("> "@ + d.input)
            &&& n.input.len() == 0
            &&& n.phase is Running
        }),
{
}

/// `q` with an empty command box sends `stop` to the server and starts
/// shutting down; typed into a command box that holds text, it is just text.
pub proof fn law_q_quits_only_with_empty_box(d: DashboardView, height: u16)
    requires
        d.phase is Running,
    ensures
        ({
            let (n, a) = dashboard_next(d, EventView::Key(DashboardKey::Char('q')), height);
            &&& d.input.len() == 0 ==> a == ActionView::Send("stop\n"@) && n.phase == (Phase::ShuttingDown {
                exited: false,
                stdout_closed: false,
                stderr_closed: false,
            })
            &&& d.input.len() > 0 && d.command_box ==> a == ActionView::Nothing && n.phase is Running
                && n.input == d.input.push('q')
        }),
{
}

/// Shutting down ends only when the server process has exited and both its
/// outputs have ended, or when it timed out, in which case the process is
/// killed; a finished dashboard does nothing more.
pub proof fn law_shutdown_ends_when_done(d: DashboardView, e: EventView, height: u16)
    ensures
        ({
            let (n, a) = dashboard_next(d, e, height);
            &&& d.phase is Finished ==> n == d && a == ActionView::Nothing
            &&& match d.phase {
                Phase::ShuttingDown { exited, stdout_closed, stderr_closed } => {
                    &&& e is ShutdownTimedOut ==> n.phase is Finished && a == ActionView::Kill
                    &&& e !is ShutdownTimedOut && n.phase is Finished ==> {
                        &&& exited || e == EventView::ServerExited(true)
                        &&& stdout_closed || e is StdoutClosed
                        &&& stderr_closed || e is StderrClosed
                    }
                },
                _ => true,
            }
        }),
{
}

/// Server output while the server runs: a standard-output line is appended
/// to the log as it is; a standard-error line is appended after `[warn] `;
/// nothing else changes and nothing is sent.
pub proof fn law_server_output_is_logged(d: DashboardView, l: Seq<char>, height: u16)
    requires
        d.phase is Running,
    ensures
        ({
            let (n, a) = dashboard_next(d, EventView::ServerLine(l), height);
            &&& n.log == d.log.push(l)
            &&& n.input == d.input
            &&& n.phase is Running
            &&& a == ActionView::Nothing
        }),
        ({
            let (n, a) = dashboard_next(d, EventView::ServerWarning(l), height);
            &&& n.log == d.log.push("[warn] "@ + l)
            &&& n.input == d.input
            &&& n.phase is Running
            &&& a == ActionView::Nothing
        }),
{
}

/// Server output while the server shuts down: lines are still logged the
/// same way until their stream has ended.
pub proof fn law_shutdown_output_is_logged(
    d: DashboardView,
    l: Seq<char>,
    exited: bool,
    stdout_closed: bool,
    stderr_closed: bool,
    height: u16,
)
    requires
        d.phase == (Phase::ShuttingDown { exited, stdout_closed, stderr_closed }),
    ensures
        dashboard_next(d, EventView::ServerLine(l), height).0.log == if stdout_closed {
            d.log
        } else {
            d.log.push(l)
        },
        dashboard_next(d, EventView::ServerWarning(l), height).0.log == if stderr_closed {
            d.log
        } else {
            d.log.push("[warn] "@ + l)
        },
        dashboard_next(d, EventView::ServerLine(l), height).1 == ActionView::Nothing,
        dashboard_next(d, EventView::ServerWarning(l), height).1 == ActionView::Nothing,
{
}

/// The keys while the server runs: Up scrolls one line up (not above the
/// top) and stops following the log, Down scrolls one line down (not past
/// the largest offset); with a command box, a typed character (other than
/// `q` into an empty box) is added to the box and Backspace removes the
/// box's last character. Other keys, ticks and stream ends change nothing of
/// the log, the box or the phase, and send nothing.
pub proof fn law_running_keys(d: DashboardView, c: char, height: u16)
    requires
        d.phase is Running,
    ensures
        ({
            let (n, a) = dashboard_next(d, EventView::Key(DashboardKey::Up), height);
            &&& !n.auto_scroll
            &&& n.scroll_offset == if d.scroll_offset > 0 {
                d.scroll_offset - 1
            } else {
                0
            }
            &&& n.log == d.log && n.input == d.input && n.phase is Running && a == ActionView::Nothing
        }),
        ({
            let (n, a) = dashboard_next(d, EventView::Key(DashboardKey::Down), height);
            &&& !d.auto_scroll ==> n.scroll_offset == if d.scroll_offset < 65535 {
                d.scroll_offset + 1
            } else {
                65535
            }
            &&& n.auto_scroll == d.auto_scroll
            &&& n.log == d.log && n.input == d.input && n.phase is Running && a == ActionView::Nothing
        }),
        d.command_box && !(c == 'q' && d.input.len() == 0) ==> ({
            let (n, a) = dashboard_next(d, EventView::Key(DashboardKey::Char(c)), height);
            n.input == d.input.push(c) && n.log == d.log && n.phase is Running && a == ActionView::Nothing
        }),
        !d.command_box && c != 'q' ==> ({
            let (n, a) = dashboard_next(d, EventView::Key(DashboardKey::Char(c)), height);
            n.input == d.input && n.log == d.log && n.phase is Running && a == ActionView::Nothing
        }),
        d.command_box ==> ({
            let (n, a) = dashboard_next(d, EventView::Key(DashboardKey::Backspace), height);
            &&& n.input.len() == if d.input.len() > 0 {
                d.input.len() - 1
            } else {
                0
            }
            &&& forall|i: int| 0 <= i < n.input.len() ==> n.input[i] == d.input[i]
            &&& n.log == d.log && n.phase is Running && a == ActionView::Nothing
        }),
        ({
            let (n, a) = dashboard_next(d, EventView::Key(DashboardKey::Other), height);
            n.log == d.log && n.input == d.input && n.phase is Running && a == ActionView::Nothing
        }),
        ({
            let (n, a) = dashboard_next(d, EventView::StatsTick, height);
            n.log == d.log && n.input == d.input && n.phase is Running && a == ActionView::Nothing
        }),
        ({
            let (n, a) = dashboard_next(d, EventView::StdoutClosed, height);
            n.log == d.log && n.input == d.input && n.phase is Running && a == ActionView::Nothing
        }),
        ({
            let (n, a) = dashboard_next(d, EventView::StderrClosed, height);
            n.log == d.log && n.input == d.input && n.phase is Running && a == ActionView::Nothing
        }),
{
}

/// Following the log shows its end: after an event that the dashboard
/// draws after, a following view's offset is the number of log lines
/// (modulo 2^16) less the rows left for the log (the height less the
/// reserved rows, at least zero), and zero when the log fits.
pub proof fn law_following_shows_the_end(d: DashboardView, e: EventView, height: u16)
    requires
        d.phase is Running ==> !(e == EventView::Key(DashboardKey::Char('q')) && d.input.len() == 0),
        d.phase is ShuttingDown ==> e !is ShutdownTimedOut,
        d.phase !is Finished,
    ensures
        ({
            let n = dashboard_next(d, e, height).0;
            let len = (n.log.len() % 65536) as int;
            let rows: int = if height >= d.reserved_rows {
                height - d.reserved_rows
            } else {
                0
            };
            n.auto_scroll ==> n.scroll_offset == if len > rows {
                len - rows
            } else {
                0
            }
        }),
{
}

/// Shutting down follows the process: its exit (when waiting succeeds) and
/// the end of each output are recorded, and once all three have happened the
/// dashboard is finished; a failed wait records nothing.
pub proof fn law_shutdown_tracks_the_process(
    d: DashboardView,
    exited: bool,
    stdout_closed: bool,
    stderr_closed: bool,
    height: u16,
)
    requires
        d.phase == (Phase::ShuttingDown { exited, stdout_closed, stderr_closed }),
    ensures
        ({
            let n = dashboard_next(d, EventView::ServerExited(true), height).0;
            if stdout_closed && stderr_closed {
                n.phase is Finished
            } else {
                n.phase == (Phase::ShuttingDown { exited: true, stdout_closed, stderr_closed })
            }
        }),
        !exited ==> dashboard_next(d, EventView::ServerExited(false), height).0.phase == d.phase,
        ({
            let n = dashboard_next(d, EventView::StdoutClosed, height).0;
            if exited && stderr_closed {
                n.phase is Finished
            } else {
                n.phase == (Phase::ShuttingDown { exited, stdout_closed: true, stderr_closed })
            }
        }),
        ({
            let n = dashboard_next(d, EventView::StderrClosed, height).0;
            if exited && stdout_closed {
                n.phase is Finished
            } else {
                n.phase == (Phase::ShuttingDown { exited, stdout_closed, stderr_closed: true })
            }
        }),
        !(exited && stdout_closed && stderr_closed) ==> dashboard_next(
            d,
            EventView::Key(DashboardKey::Enter),
            height,
        ).0.phase == d.phase,
        dashboard_next(d, EventView::Key(DashboardKey::Enter), height).1 == ActionView::Nothing,
{
}

} // verus!
