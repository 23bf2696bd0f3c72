//! The renderer: turns the events of successive runs into paint commands.
//!
//! Output that differs from the previous run is printed as permanent
//! lines; everything else only refreshes a status line, which is erased
//! before any permanent line is written.

use vstd::prelude::*;
use vstd::view::View as _;

use crate::differ::end_run_model;
use crate::differ::push_model;
use crate::differ::reset_model;
use crate::differ::unread;
use crate::differ::Differ;
use crate::differ::DifferState;
use crate::misc::ofmt_helper;
use crate::misc::ofmt_timeless_helper;
use crate::misc::stamped_text;
use crate::misc::timeless_text;
use crate::output::paints;
use crate::output::OutputCommand;
use crate::output::Paint;
use crate::process_wrapper::exit_text;
use crate::process_wrapper::join_words;
use crate::process_wrapper::ExitSts;
use crate::process_wrapper::Cmd;
use crate::process_wrapper::StreamItem;
use crate::progbar::is_spinner;
use crate::progbar::next_spinner;
use crate::progbar::progbar_running;
use crate::progbar::progbar_sleeping;
use crate::progbar::running_text;
use crate::progbar::sleeping_text;
use crate::progbar::spinner_get;
use crate::time_wrapper::clamp_instant;
use crate::time_wrapper::Duration;
use crate::time_wrapper::Instant;

verus! {

/// What the renderer is doing.
#[derive(Debug, Clone, Copy, PartialEq, Eq, Structural)]
pub enum State {
    /// No run has started yet.
    Starting,
    /// Between runs, counting down to the next.
    Sleeping,
    /// A run is in progress.
    Running,
}

/// The abstract state of a [`View`].
pub ghost struct ViewState {
    /// The command line as shown.
    pub cmdline: Seq<char>,
    /// The refresh period, in milliseconds.
    pub refresh_ms: int,
    /// The sleep between runs, in milliseconds.
    pub sleep_ms: int,
    /// The terminal width.
    pub width: int,
    /// The paint commands not yet taken, in order.
    pub commands: Seq<Paint>,
    /// The differ.
    pub differ: DifferState,
    /// The spinner position last shown.
    pub spinner: char,
    /// When the current run, or the current sleep, started.
    pub start: Instant,
    /// How long the previous run took.
    pub duration_ms: Option<int>,
    /// Whether a status line is the last thing painted.
    pub shown: bool,
    /// Runs completed.
    pub runs: nat,
    /// Runs started, completed or not.
    pub starts: nat,
    /// Completed runs in a row whose output did not change.
    pub unchanged: nat,
    /// What the renderer is doing.
    pub state: State,
    /// When the current sleep ends.
    pub deadline_ms: int,
}

/// The commands that erase the status line, when one is shown.
pub open spec fn erase(shown: bool) -> Seq<Paint> {
    if shown {
        seq![Paint::Up(1), Paint::Clear]
    } else {
        Seq::empty()
    }
}

/// The command that writes `text` as a line.
pub open spec fn line_paint(text: Seq<char>) -> Paint {
    Paint::Write(vstd::utf8::encode_utf8(text + "\n"@))
}

/// Prints `lines` as permanent output, erasing the status line first.
pub open spec fn print_lines(s: ViewState, lines: Seq<Seq<char>>) -> ViewState {
    if lines.len() == 0 {
        s
    } else {
        ViewState {
            commands: s.commands + erase(s.shown) + lines.map_values(|t: Seq<char>| line_paint(t)),
            shown: false,
            ..s
        }
    }
}

/// Repaints the status line of a run in progress, with the next spinner
/// position.
pub open spec fn running_status(s: ViewState, now: Instant) -> ViewState {
    let sp = next_spinner(s.spinner);
    let expected = match s.duration_ms {
        Some(d) => d,
        None => 0,
    };
    let text = stamped_text(
        now.shown_ms(),
        running_text(s.width, s.unchanged, now.ms() - s.start.ms(), expected, s.refresh_ms, sp),
    );
    ViewState {
        commands: s.commands + erase(s.shown) + seq![line_paint(text)],
        shown: true,
        spinner: sp,
        ..s
    }
}

/// Repaints the status line of a sleep, with the next spinner position.
pub open spec fn sleeping_status(s: ViewState, now: Instant) -> ViewState {
    let sp = next_spinner(s.spinner);
    let text = stamped_text(
        s.start.shown_ms(),
        sleeping_text(s.unchanged, s.sleep_ms, s.deadline_ms - now.ms(), sp),
    );
    ViewState {
        commands: s.commands + erase(s.shown) + seq![line_paint(text)],
        shown: true,
        spinner: sp,
        ..s
    }
}

/// The command line as a line of the program's own.
pub open spec fn cmdline_text(s: ViewState) -> Seq<char> {
    timeless_text("+ "@ + s.cmdline)
}

/// The lines printed when the very first run starts.
pub open spec fn banner(s: ViewState, now: Instant) -> Seq<Seq<char>> {
    seq![stamped_text(now.shown_ms(), "start execution"@), cmdline_text(s)]
}

/// The lines printed when a run diverges: none on the first run started,
/// which the banner has introduced, else a `changed` marker and the command
/// line.
pub open spec fn header(s: ViewState, now: Instant) -> Seq<Seq<char>> {
    if s.starts <= 1 {
        Seq::empty()
    } else {
        seq![stamped_text(now.shown_ms(), "changed"@), cmdline_text(s)]
    }
}

/// After the differ has taken a step: when the run has diverged, prints
/// what the differ has not handed out yet, after the header when the
/// divergence is new.
pub open spec fn report_model(s: ViewState, was_changed: bool, now: Instant) -> ViewState {
    if s.differ.changed {
        print_lines(
            ViewState {
                differ: DifferState { pos: s.differ.lines.len() as int, ..s.differ },
                ..s
            },
            (if was_changed {
                Seq::empty()
            } else {
                header(s, now)
            }) + unread(s.differ),
        )
    } else {
        s
    }
}

/// A run starts: the banner when no run has started before, then a status
/// line.
pub open spec fn start_model(s: ViewState, now: Instant) -> ViewState {
    let s1 = if s.starts == 0 {
        print_lines(s, banner(s, now))
    } else {
        s
    };
    running_status(
        ViewState {
            differ: reset_model(s1.differ),
            state: State::Running,
            start: now,
            starts: count_up(s1.starts),
            ..s1
        },
        now,
    )
}

/// A line of output arrives.
pub open spec fn line_model(s: ViewState, now: Instant, line: Seq<char>) -> ViewState {
    running_status(
        report_model(
            ViewState { differ: push_model(s.differ, line), ..s },
            s.differ.changed,
            now,
        ),
        now,
    )
}

/// One more, held to the range of a `u32`.
pub open spec fn count_up(n: nat) -> nat {
    if n < 4294967295 {
        n + 1
    } else {
        n
    }
}

/// The line that reports how a run ended: none after a success, the exit
/// status after a failure, and a note when no status came.
pub open spec fn exit_line(sts: Option<ExitSts>) -> Option<Seq<char>> {
    match sts {
        Some(ExitSts::Success) => None,
        Some(e) => Some(timeless_text("exited with "@ + exit_text(e))),
        None => Some(timeless_text("exited without a status"@)),
    }
}

/// The run ends, with the exit status `sts` when one came: a failure adds
/// its exit line to the run's output; a run shorter than the previous one
/// has diverged; the duration is recorded and the sleep begins.
pub open spec fn end_model(s: ViewState, now: Instant, sleep_end: int, sts: Option<ExitSts>) -> ViewState {
    let s0 = match exit_line(sts) {
        Some(l) => report_model(
            ViewState { differ: push_model(s.differ, l), ..s },
            s.differ.changed,
            now,
        ),
        None => s,
    };
    let s1 = report_model(
        ViewState { differ: end_run_model(s0.differ), ..s0 },
        s0.differ.changed,
        now,
    );
    sleeping_status(
        ViewState {
            duration_ms: Some(now.ms() - s.start.ms()),
            start: now,
            deadline_ms: sleep_end,
            runs: count_up(s.runs),
            unchanged: if s1.differ.changed || s.runs == 0 {
                0
            } else {
                count_up(s.unchanged)
            },
            state: State::Sleeping,
            ..s1
        },
        now,
    )
}

/// The timer fires: the status line of the current state is repainted.
pub open spec fn tick_model(s: ViewState, now: Instant) -> ViewState {
    match s.state {
        State::Starting => s,
        State::Running => running_status(s, now),
        State::Sleeping => sleeping_status(s, now),
    }
}

/// Reading from the process failed: the error is printed, then the status.
pub open spec fn error_model(s: ViewState, now: Instant, msg: Seq<char>) -> ViewState {
    tick_model(print_lines(s, seq![stamped_text(now.shown_ms(), "err "@ + msg)]), now)
}

/// What an event of the stream does.
pub open spec fn event_model(s: ViewState, now: Instant, item: StreamItem) -> ViewState {
    match item {
        StreamItem::LineOut(l) => line_model(s, now, l@),
        StreamItem::LineErr(l) => line_model(s, now, l@),
        StreamItem::Done(e) => end_model(s, now, clamp_instant(now.ms() + s.sleep_ms), Some(e)),
        StreamItem::Error(m) => error_model(s, now, m@),
        StreamItem::Tick => tick_model(s, now),
    }
}

/// `t` keeps the commands of `s` and adds some; when it adds any while a
/// status line is shown in `s`, the first two erase that line; when it adds
/// none, whether a status line is shown stays as it was.
pub open spec fn paints_after(s: ViewState, t: ViewState) -> bool {
    let n = s.commands.len() as int;
    &&& t.commands.len() >= n
    &&& t.commands.take(n) == s.commands
    &&& s.shown && t.commands.len() > n ==> t.commands.len() >= n + 2 && t.commands[n] == Paint::Up(
        1,
    ) && t.commands[n + 1] == Paint::Clear
    &&& t.commands.len() == n ==> t.shown == s.shown
}

proof fn lemma_paints_after_trans(s: ViewState, u: ViewState, t: ViewState)
    requires
        paints_after(s, u),
        paints_after(u, t),
    ensures
        paints_after(s, t),
{
    let n = s.commands.len() as int;
    let m = u.commands.len() as int;
    assert(t.commands.take(m).take(n) =~= t.commands.take(n));
    if m > n && s.shown {
        assert(t.commands[n] == t.commands.take(m)[n]);
        assert(t.commands[n + 1] == t.commands.take(m)[n + 1]);
    }
}

proof fn lemma_print_lines(s: ViewState, lines: Seq<Seq<char>>)
    ensures
        paints_after(s, print_lines(s, lines)),
{
    let t = print_lines(s, lines);
    assert(t.commands.take(s.commands.len() as int) =~= s.commands);
}

proof fn lemma_running_status(s: ViewState, now: Instant)
    ensures
        paints_after(s, running_status(s, now)),
{
    let t = running_status(s, now);
    assert(t.commands.take(s.commands.len() as int) =~= s.commands);
}

proof fn lemma_sleeping_status(s: ViewState, now: Instant)
    ensures
        paints_after(s, sleeping_status(s, now)),
{
    let t = sleeping_status(s, now);
    assert(t.commands.take(s.commands.len() as int) =~= s.commands);
}

proof fn lemma_unchanged(s: ViewState, t: ViewState)
    requires
        t.commands == s.commands,
        t.shown == s.shown,
    ensures
        paints_after(s, t),
{
    assert(t.commands.take(s.commands.len() as int) =~= s.commands);
}

proof fn lemma_report(s: ViewState, was_changed: bool, now: Instant)
    ensures
        paints_after(s, report_model(s, was_changed, now)),
{
    if s.differ.changed {
        let u = ViewState { differ: DifferState { pos: s.differ.lines.len() as int, ..s.differ }, ..s };
        lemma_unchanged(s, u);
        lemma_print_lines(u, (if was_changed {
            Seq::empty()
        } else {
            header(s, now)
        }) + unread(s.differ));
        lemma_paints_after_trans(s, u, report_model(s, was_changed, now));
    } else {
        lemma_unchanged(s, s);
    }
}

proof fn lemma_tick(s: ViewState, now: Instant)
    ensures
        paints_after(s, tick_model(s, now)),
{
    match s.state {
        State::Starting => lemma_unchanged(s, s),
        State::Running => lemma_running_status(s, now),
        State::Sleeping => lemma_sleeping_status(s, now),
    }
}

/// Whenever a status line is the last thing painted, the next event that
/// paints anything erases it first: its first two commands move the
/// cursor up one line and clear that line, before any write. Events that
/// paint nothing leave the status line shown.
pub proof fn law_erase_before_print(s: ViewState, now: Instant, item: StreamItem)
    ensures
        paints_after(s, event_model(s, now, item)),
{
    match item {
        StreamItem::LineOut(l) => lemma_line(s, now, l@),
        StreamItem::LineErr(l) => lemma_line(s, now, l@),
        StreamItem::Done(e) => lemma_end(s, now, clamp_instant(now.ms() + s.sleep_ms), Some(e)),
        StreamItem::Error(m) => {
            let u = print_lines(s, seq![stamped_text(now.shown_ms(), "err "@ + m@)]);
            lemma_print_lines(s, seq![stamped_text(now.shown_ms(), "err "@ + m@)]);
            lemma_tick(u, now);
            lemma_paints_after_trans(s, u, tick_model(u, now));
        },
        StreamItem::Tick => lemma_tick(s, now),
    }
}

/// The start of a run, too, erases a shown status line before it writes.
pub proof fn law_erase_before_print_at_start(s: ViewState, now: Instant)
    ensures
        paints_after(s, start_model(s, now)),
{
    let s1 = if s.starts == 0 {
        print_lines(s, banner(s, now))
    } else {
        s
    };
    if s.starts == 0 {
        lemma_print_lines(s, banner(s, now));
    } else {
        lemma_unchanged(s, s);
    }
    let s2 = ViewState {
        differ: reset_model(s1.differ),
        state: State::Running,
        start: now,
        starts: count_up(s1.starts),
        ..s1
    };
    lemma_unchanged(s1, s2);
    lemma_paints_after_trans(s, s1, s2);
    lemma_running_status(s2, now);
    lemma_paints_after_trans(s, s2, running_status(s2, now));
}

proof fn lemma_line(s: ViewState, now: Instant, line: Seq<char>)
    ensures
        paints_after(s, line_model(s, now, line)),
{
    let u = ViewState { differ: push_model(s.differ, line), ..s };
    lemma_unchanged(s, u);
    lemma_report(u, s.differ.changed, now);
    let v = report_model(u, s.differ.changed, now);
    lemma_paints_after_trans(s, u, v);
    lemma_running_status(v, now);
    lemma_paints_after_trans(s, v, running_status(v, now));
}

proof fn lemma_end(s: ViewState, now: Instant, sleep_end: int, sts: Option<ExitSts>)
    ensures
        paints_after(s, end_model(s, now, sleep_end, sts)),
{
    let s0 = match exit_line(sts) {
        Some(l) => report_model(
            ViewState { differ: push_model(s.differ, l), ..s },
            s.differ.changed,
            now,
        ),
        None => s,
    };
    match exit_line(sts) {
        Some(l) => {
            let u0 = ViewState { differ: push_model(s.differ, l), ..s };
            lemma_unchanged(s, u0);
            lemma_report(u0, s.differ.changed, now);
            lemma_paints_after_trans(s, u0, s0);
        },
        None => lemma_unchanged(s, s),
    }
    let u = ViewState { differ: end_run_model(s0.differ), ..s0 };
    lemma_unchanged(s0, u);
    lemma_paints_after_trans(s, s0, u);
    lemma_report(u, s0.differ.changed, now);
    let s1 = report_model(u, s0.differ.changed, now);
    lemma_paints_after_trans(s, u, s1);
    let s2 = ViewState {
        duration_ms: Some(now.ms() - s.start.ms()),
        start: now,
        deadline_ms: sleep_end,
        runs: count_up(s.runs),
        unchanged: if s1.differ.changed || s.runs == 0 {
            0
        } else {
            count_up(s.unchanged)
        },
        state: State::Sleeping,
        ..s1
    };
    lemma_unchanged(s1, s2);
    lemma_paints_after_trans(s, s1, s2);
    lemma_sleeping_status(s2, now);
    lemma_paints_after_trans(s, s2, sleeping_status(s2, now));
}

/// The banner is printed once: once a run has started, whether or not it
/// ended, a later start paints only the status line, and the count of
/// starts never falls back to zero.
pub proof fn law_banner_once(s: ViewState, now: Instant)
    ensures
        start_model(s, now).starts >= 1,
        s.starts > 0 ==> start_model(s, now) == running_status(
            ViewState {
                differ: reset_model(s.differ),
                state: State::Running,
                start: now,
                starts: count_up(s.starts),
                ..s
            },
            now,
        ),
        s.starts > 0 ==> start_model(s, now).commands == s.commands + erase(s.shown) + seq![
            line_paint(
                stamped_text(
                    now.shown_ms(),
                    running_text(
                        s.width,
                        s.unchanged,
                        0,
                        match s.duration_ms {
                            Some(d) => d,
                            None => 0,
                        },
                        s.refresh_ms,
                        next_spinner(s.spinner),
                    ),
                ),
            ),
        ],
{
}

/// A line that keeps the run in step with the previous one paints nothing
/// but a refreshed status line: with `law_identical_runs_never_change`, a
/// run that repeats the previous output prints no permanent line.
pub proof fn law_unchanged_line_paints_only_status(s: ViewState, now: Instant, line: Seq<char>)
    requires
        !push_model(s.differ, line).changed,
    ensures
        line_model(s, now, line) == running_status(
            ViewState { differ: push_model(s.differ, line), ..s },
            now,
        ),
{
}

/// The line at which a later run first differs from the previous one is
/// printed after erasing the status line, a `changed` marker and the
/// command line, together with the run's earlier lines, which matched;
/// then the status line is repainted.
pub proof fn law_divergence_prints_header(s: ViewState, now: Instant, line: Seq<char>)
    requires
        s.starts > 1,
        !s.differ.changed,
        0 <= s.differ.pos <= s.differ.lines.len(),
        push_model(s.differ, line).changed,
    ensures
        ({
            let shown_lines = seq![stamped_text(now.shown_ms(), "changed"@), cmdline_text(s)]
                + s.differ.lines.take(s.differ.pos).push(line);
            let t = line_model(s, now, line);
            let u = running_status(
                ViewState {
                    commands: s.commands + erase(s.shown) + shown_lines.map_values(
                        |x: Seq<char>| line_paint(x),
                    ),
                    shown: false,
                    differ: DifferState {
                        changed: true,
                        lines: s.differ.lines.take(s.differ.pos).push(line),
                        pos: s.differ.pos + 1,
                    },
                    ..s
                },
                now,
            );
            t == u
        }),
{
    let d = push_model(s.differ, line);
    assert(unread(d) =~= d.lines);
    assert(d.lines.len() == s.differ.pos + 1);
}

/// A run without output, ending in success, after a previous run without
/// output, paints nothing but the sleeping status line.
pub proof fn law_silent_run_paints_only_status(s: ViewState, now: Instant, sleep_end: int)
    requires
        s.differ.lines.len() == 0,
        !s.differ.changed,
        s.differ.pos == 0,
    ensures
        end_model(s, now, sleep_end, Some(ExitSts::Success)).commands == s.commands + erase(
            s.shown,
        ) + seq![
            line_paint(
                stamped_text(
                    now.shown_ms(),
                    sleeping_text(
                        if s.runs == 0 {
                            0
                        } else {
                            count_up(s.unchanged)
                        },
                        s.sleep_ms,
                        sleep_end - now.ms(),
                        next_spinner(s.spinner),
                    ),
                ),
            ),
        ],
{
}

/// While a run is in progress or a sleep counts down, each tick repaints
/// exactly one status line, with the next spinner position; the spinner
/// comes back to where it was every four ticks.
pub proof fn law_tick_advances_spinner(s: ViewState, now: Instant)
    requires
        s.state != State::Starting,
    ensures
        tick_model(s, now).commands.len() == s.commands.len() + erase(s.shown).len() + 1,
        tick_model(s, now).commands.take((s.commands.len() + erase(s.shown).len()) as int) == s.commands
            + erase(s.shown),
        tick_model(s, now).spinner == next_spinner(s.spinner),
        tick_model(s, now).shown,
        tick_model(s, now).state == s.state,
        is_spinner(s.spinner) ==> next_spinner(next_spinner(next_spinner(next_spinner(s.spinner))))
            == s.spinner,
{
    let t = tick_model(s, now);
    assert(t.commands.take((s.commands.len() + erase(s.shown).len()) as int) =~= s.commands + erase(
        s.shown,
    ));
}

/// The renderer of successive runs of one command.
#[derive(Debug)]
pub struct View {
    cmd: Cmd,
    cmdline: String,
    refresh: Duration,
    sleep: Duration,
    width: usize,
    pending: Vec<OutputCommand>,
    differ: Differ,
    spinner: char,
    start: Instant,
    duration: Option<Duration>,
    printed_status: bool,
    runs: u32,
    starts: u32,
    unchanged: u32,
    state: State,
    deadline: Instant,
}

impl View {
    /// Internal consistency.
    pub closed spec fn wf(&self) -> bool {
        &&& self.differ.wf()
        &&& is_spinner(self.spinner)
        &&& self.differ@.changed ==> self.differ@.pos == self.differ@.lines.len()
    }

    /// The abstract state.
    pub closed spec fn model(&self) -> ViewState {
        ViewState {
            cmdline: self.cmdline@,
            refresh_ms: self.refresh.ms(),
            sleep_ms: self.sleep.ms(),
            width: self.width as int,
            commands: paints(self.pending@),
            differ: self.differ@,
            spinner: self.spinner,
            start: self.start,
            duration_ms: match self.duration {
                Some(d) => Some(d.ms()),
                None => None,
            },
            shown: self.printed_status,
            runs: self.runs as nat,
            starts: self.starts as nat,
            unchanged: self.unchanged as nat,
            state: self.state,
            deadline_ms: self.deadline.ms(),
        }
    }

    /// The command.
    pub closed spec fn command(&self) -> Seq<Seq<char>> {
        self.cmd@
    }

    /// A renderer for `cmd`, refreshing every `refresh` and sleeping
    /// `sleep` between runs, on a terminal 80 columns wide.
    pub fn new(cmd: Cmd, refresh: Duration, sleep: Duration) -> (r: View)
        ensures
            r.wf(),
            r.command() == cmd@,
            r.model().start.ms() == 0,
            r.model().start.shown_ms() == 0,
            r.model() == (ViewState {
                cmdline: join_words(cmd@),
                refresh_ms: refresh.ms(),
                sleep_ms: sleep.ms(),
                width: 80,
                commands: Seq::empty(),
                differ: DifferState { changed: false, lines: Seq::empty(), pos: 0 },
                spinner: '-',
                start: r.model().start,
                duration_ms: None,
                shown: false,
                runs: 0,
                starts: 0,
                unchanged: 0,
                state: State::Starting,
                deadline_ms: 0,
            }),
    {
        let cmdline = cmd.to_text();
        let r = View {
            cmd,
            cmdline,
            refresh,
            sleep,
            width: 80,
            pending: Vec::new(),
            differ: Differ::new(),
            spinner: '-',
            start: Instant::default(),
            duration: None,
            printed_status: false,
            runs: 0,
            starts: 0,
            unchanged: 0,
            state: State::Starting,
            deadline: Instant::default(),
        };
        assert(paints(r.pending@) =~= Seq::empty());
        r
    }

    /// Sets the terminal width that the status line is fitted to.
    pub fn set_width(&mut self, width: usize)
        requires
            old(self).wf(),
        ensures
            final(self).wf(),
            final(self).command() == old(self).command(),
            final(self).model() == (ViewState { width: width as int, ..old(self).model() }),
    {
        self.width = width;
    }

    /// Takes the next paint command, if any.
    pub fn pop_command(&mut self) -> (r: Option<OutputCommand>)
        requires
            old(self).wf(),
        ensures
            final(self).wf(),
            final(self).command() == old(self).command(),
            old(self).model().commands.len() == 0 ==> r is None && final(self).model()
                == old(self).model(),
            old(self).model().commands.len() > 0 ==> (r matches Some(c) && c@
                == old(self).model().commands[0] && final(self).model() == (ViewState {
                commands: old(self).model().commands.drop_first(),
                ..old(self).model()
            })),
    {
        if self.pending.len() == 0 {
            None
        } else {
            let c = self.pending.remove(0);
            assert(paints(self.pending@) =~= paints(old(self).pending@).drop_first());
            Some(c)
        }
    }

    /// Takes every paint command, in order.
    pub fn take_commands(&mut self) -> (r: Vec<OutputCommand>)
        requires
            old(self).wf(),
        ensures
            final(self).wf(),
            final(self).command() == old(self).command(),
            paints(r@) == old(self).model().commands,
            final(self).model() == (ViewState { commands: Seq::empty(), ..old(self).model() }),
    {
        let r = self.pending.split_off(0);
        assert(paints(self.pending@) =~= Seq::empty());
        assert(r@ =~= old(self).pending@);
        r
    }

    fn push_line(&mut self, s: String)
        requires
            old(self).wf(),
        ensures
            final(self).wf(),
            final(self).command() == old(self).command(),
            final(self).model() == (ViewState {
                commands: old(self).model().commands.push(line_paint(s@)),
                ..old(self).model()
            }),
    {
        let mut t = s;
        t.append("\n");
        let c = OutputCommand::write_text(t.as_str());
        self.pending.push(c);
        assert(paints(self.pending@) =~= paints(old(self).pending@).push(line_paint(s@)));
    }

    fn status_maybe_clear(&mut self)
        requires
            old(self).wf(),
        ensures
            final(self).wf(),
            final(self).command() == old(self).command(),
            final(self).model() == (ViewState {
                commands: old(self).model().commands + erase(old(self).model().shown),
                ..old(self).model()
            }),
    {
        if self.printed_status {
            self.pending.push(
                OutputCommand::MoveCursorUp(crate::output::MoveCursorUp(1)),
            );
            self.pending.push(OutputCommand::ClearLine(crate::output::ClearLine {  }));
            assert(paints(self.pending@) =~= paints(old(self).pending@) + erase(true));
        } else {
            assert(paints(self.pending@) =~= paints(old(self).pending@) + erase(false));
        }
    }

    fn println(&mut self, s: String)
        requires
            old(self).wf(),
        ensures
            final(self).wf(),
            final(self).command() == old(self).command(),
            final(self).model() == print_lines(old(self).model(), seq![s@]),
    {
        self.status_maybe_clear();
        self.push_line(s);
        self.printed_status = false;
        assert(seq![s@].map_values(|t: Seq<char>| line_paint(t)) =~= seq![line_paint(s@)]);
        assert(self.model().commands =~= print_lines(old(self).model(), seq![s@]).commands);
    }

    fn print_all(&mut self, lines: Vec<String>)
        requires
            old(self).wf(),
        ensures
            final(self).wf(),
            final(self).command() == old(self).command(),
            final(self).model() == print_lines(
                old(self).model(),
                lines@.map_values(|l: String| l@),
            ),
    {
        let ghost all = lines@.map_values(|l: String| l@);
        let ghost s0 = self.model();
        let mut i: usize = 0;
        while i < lines.len()
            invariant
                i <= lines.len(),
                self.wf(),
                self.command() == old(self).command(),
                all == lines@.map_values(|l: String| l@),
                s0 == old(self).model(),
                self.model() == print_lines(s0, all.take(i as int)),
            decreases lines.len() - i,
        {
            let l = lines[i].clone();
            let ghost before = self.model();
            self.println(l);
            proof {
                let p = all.take(i as int);
                let q = all.take(i + 1);
                assert(q.drop_last() =~= p);
                assert(q.last() == l@);
                if i == 0 {
                    assert(p =~= Seq::<Seq<char>>::empty());
                    assert(q.map_values(|t: Seq<char>| line_paint(t)) =~= seq![line_paint(l@)]);
                    assert(seq![l@].map_values(|t: Seq<char>| line_paint(t)) =~= seq![
                        line_paint(l@),
                    ]);
                    assert(self.model().commands =~= print_lines(s0, q).commands);
                } else {
                    assert(q.map_values(|t: Seq<char>| line_paint(t)) =~= p.map_values(
                        |t: Seq<char>| line_paint(t),
                    ).push(line_paint(l@)));
                    assert(seq![l@].map_values(|t: Seq<char>| line_paint(t)) =~= seq![
                        line_paint(l@),
                    ]);
                    assert(self.model().commands =~= print_lines(s0, q).commands);
                }
            }
            i = i + 1;
        }
        assert(all.take(lines.len() as int) =~= all);
    }

    fn status_update_running(&mut self, now: &Instant)
        requires
            old(self).wf(),
        ensures
            final(self).wf(),
            final(self).command() == old(self).command(),
            final(self).model() == running_status(old(self).model(), *now),
    {
        self.status_maybe_clear();
        let mut spinner = self.spinner;
        let sp = spinner_get(&mut spinner);
        let bar = progbar_running(
            self.width,
            self.unchanged,
            now,
            &self.start,
            self.duration,
            &self.refresh,
            sp,
        );
        let text = ofmt_helper(now, bar.as_str());
        self.push_line(text);
        self.spinner = spinner;
        self.printed_status = true;
        assert(self.model().commands =~= running_status(old(self).model(), *now).commands);
    }

    fn status_update_sleeping(&mut self, now: &Instant)
        requires
            old(self).wf(),
        ensures
            final(self).wf(),
            final(self).command() == old(self).command(),
            final(self).model() == sleeping_status(old(self).model(), *now),
    {
        self.status_maybe_clear();
        let mut spinner = self.spinner;
        let sp = spinner_get(&mut spinner);
        let bar = progbar_sleeping(self.unchanged, &self.sleep, now, &self.deadline, sp);
        let text = ofmt_helper(&self.start, bar.as_str());
        self.push_line(text);
        self.spinner = spinner;
        self.printed_status = true;
        assert(self.model().commands =~= sleeping_status(old(self).model(), *now).commands);
    }

    fn cmdline_line(&self) -> (r: String)
        ensures
            r@ == cmdline_text(self.model()),
    {
        let mut s = String::from_str("+ ");
        s.append(self.cmdline.as_str());
        ofmt_timeless_helper(s.as_str())
    }

    fn report_divergence(&mut self, was_changed: bool, now: &Instant)
        requires
            old(self).differ.wf(),
            is_spinner(old(self).spinner),
            was_changed ==> old(self).differ@.changed,
        ensures
            final(self).wf(),
            final(self).command() == old(self).command(),
            final(self).model() == report_model(old(self).model(), was_changed, *now),
    {
        if self.differ.has_changed() {
            let mut lines: Vec<String> = Vec::new();
            if !was_changed && self.starts > 1 {
                lines.push(ofmt_helper(now, "changed"));
                lines.push(self.cmdline_line());
            }
            let ghost head = lines@.map_values(|l: String| l@);
            assert(head =~= (if was_changed {
                Seq::empty()
            } else {
                header(self.model(), *now)
            }));
            let mut rest = self.differ.collect_lines();
            lines.append(&mut rest);
            assert(lines@.map_values(|l: String| l@) =~= head + unread(old(self).differ@));
            self.print_all(lines);
        }
    }

    /// A run starts at `now`.
    pub fn run_start(&mut self, now: &Instant)
        requires
            old(self).wf(),
        ensures
            final(self).wf(),
            final(self).command() == old(self).command(),
            final(self).model() == start_model(old(self).model(), *now),
    {
        if self.starts == 0 {
            let first = ofmt_helper(now, "start execution");
            let second = self.cmdline_line();
            let mut lines: Vec<String> = Vec::new();
            lines.push(first);
            lines.push(second);
            assert(lines@.map_values(|l: String| l@) =~= banner(old(self).model(), *now));
            self.print_all(lines);
        }
        self.differ.reset();
        self.state = State::Running;
        self.start = *now;
        if self.starts < 4294967295 {
            self.starts = self.starts + 1;
        }
        self.status_update_running(now);
    }

    fn process_line(&mut self, now: &Instant, line: String)
        requires
            old(self).wf(),
        ensures
            final(self).wf(),
            final(self).command() == old(self).command(),
            final(self).model() == report_model(
                ViewState { differ: push_model(old(self).model().differ, line@), ..old(self).model() },
                old(self).model().differ.changed,
                *now,
            ),
    {
        let was_changed = self.differ.has_changed();
        self.differ.push(line);
        self.report_divergence(was_changed, now);
    }

    /// A line of output, from either stream, arrives at `now`.
    pub fn out_line(&mut self, now: &Instant, line: String)
        requires
            old(self).wf(),
        ensures
            final(self).wf(),
            final(self).command() == old(self).command(),
            final(self).model() == line_model(old(self).model(), *now, line@),
    {
        self.process_line(now, line);
        self.status_update_running(now);
    }

    /// A line of standard error arrives at `now`: it counts as output.
    pub fn err_line(&mut self, now: &Instant, line: String)
        requires
            old(self).wf(),
        ensures
            final(self).wf(),
            final(self).command() == old(self).command(),
            final(self).model() == line_model(old(self).model(), *now, line@),
    {
        self.out_line(now, line);
    }

    /// The run ends at `now`, with the exit status `sts` when one came.
    pub fn run_end(&mut self, now: &Instant, sts: Option<ExitSts>)
        requires
            old(self).wf(),
        ensures
            final(self).wf(),
            final(self).command() == old(self).command(),
            final(self).model() == end_model(
                old(self).model(),
                *now,
                clamp_instant(now.ms() + old(self).model().sleep_ms),
                sts,
            ),
    {
        match sts {
            Some(ExitSts::Success) => {},
            Some(e) => {
                let mut t = String::from_str("exited with ");
                let x = e.to_text();
                t.append(x.as_str());
                let line = ofmt_timeless_helper(t.as_str());
                self.process_line(now, line);
            },
            None => {
                let line = ofmt_timeless_helper("exited without a status");
                self.process_line(now, line);
            },
        }
        let was_changed = self.differ.has_changed();
        self.differ.end_run();
        self.report_divergence(was_changed, now);
        let changed = self.differ.has_changed();
        self.duration = Some(now.sub(&self.start));
        self.start = *now;
        self.deadline = now.add(&self.sleep);
        if changed || self.runs == 0 {
            self.unchanged = 0;
        } else if self.unchanged < 4294967295 {
            self.unchanged = self.unchanged + 1;
        }
        if self.runs < 4294967295 {
            self.runs = self.runs + 1;
        }
        self.state = State::Sleeping;
        self.status_update_sleeping(now);
    }

    /// The timer fires at `now`.
    pub fn tick(&mut self, now: &Instant)
        requires
            old(self).wf(),
        ensures
            final(self).wf(),
            final(self).command() == old(self).command(),
            final(self).model() == tick_model(old(self).model(), *now),
    {
        match self.state {
            State::Starting => {},
            State::Running => self.status_update_running(now),
            State::Sleeping => self.status_update_sleeping(now),
        }
    }

    /// Reading from the process failed at `now`, as `msg` says.
    pub fn error(&mut self, now: &Instant, msg: &str)
        requires
            old(self).wf(),
        ensures
            final(self).wf(),
            final(self).command() == old(self).command(),
            final(self).model() == error_model(old(self).model(), *now, msg@),
    {
        let mut s = String::from_str("err ");
        s.append(msg);
        let line = ofmt_helper(now, s.as_str());
        self.println(line);
        self.tick(now);
    }

    /// Renders one event of the stream, arrived at `now`.
    pub fn handle(&mut self, now: &Instant, item: StreamItem)
        requires
            old(self).wf(),
        ensures
            final(self).wf(),
            final(self).command() == old(self).command(),
            final(self).model() == event_model(old(self).model(), *now, item),
    {
        match item {
            StreamItem::LineOut(l) => self.out_line(now, l),
            StreamItem::LineErr(l) => self.err_line(now, l),
            StreamItem::Done(e) => self.run_end(now, Some(e)),
            StreamItem::Error(m) => self.error(now, m.as_str()),
            StreamItem::Tick => self.tick(now),
        }
    }
}

} // verus!
