use vstd::prelude::*;

use crate::guard::{guarded, print_with_hint, never_worse, tokens, with_hint};
use crate::labels::{original_label, rtk_label, tracking_labels};
use crate::options::{OptionsModel, RunOptions};
use crate::text::{blank, is_blank, is_white_space};

verus! {

/// How the output of a wrapped command is handled.
#[derive(Clone, Copy, Debug, PartialEq, Eq, Structural)]
pub enum RunMode {
    /// The output is captured and handed to a filter that sees only the text.
    Filtered,
    /// The output is captured and handed to a filter that also sees the exit code.
    FilteredWithExit,
    /// The output is filtered line by line while the command runs.
    Streamed,
    /// The output goes straight to the terminal.
    Passthrough,
}

/// What the child process reads as its standard input.
#[derive(Clone, Copy, Debug, PartialEq, Eq, Structural)]
pub enum StdinMode {
    Inherit,
    Null,
}

/// How the child process's output is collected.
#[derive(Clone, Copy, Debug, PartialEq, Eq, Structural)]
pub enum OutputMode {
    /// Collect everything, show nothing while the command runs.
    CaptureOnly,
    /// Run the stream filter over the output while the command runs.
    Streaming,
    /// Let the output through untouched.
    Passthrough,
}

/// What happened outside since the last step.
pub enum Event {
    /// The run is asked to start.
    Begin,
    /// A captured run ended: its exit code, combined output, stdout and stderr.
    Captured { exit_code: i32, raw: String, raw_stdout: String, raw_stderr: String },
    /// A streamed run ended: its exit code, raw output and what the stream filter showed.
    Streamed { exit_code: i32, raw: String, filtered: String },
    /// A pass-through run ended with this exit code.
    PassedThrough { exit_code: i32 },
    /// The filter returned this text.
    Filtered { text: String },
    /// The raw output was teed; the hint that points to it, if one was written.
    Teed { hint: Option<String> },
    /// The requested output was written.
    Written,
}

/// What is recorded about a finished run.
pub enum Track {
    /// Original and rtk labels, with the text that went in and the text shown.
    Measured { original: String, rtk: String, input: String, output: String },
    /// A pass-through run, recorded by its labels alone.
    Passthrough { original: String, rtk: String },
}

/// What the caller is asked to do next.
pub enum Action {
    /// Start the command.
    Spawn { stdin: StdinMode, output: OutputMode },
    /// Run the filter over `text`.
    Filter { text: String, exit_code: i32 },
    /// Tee the raw output under `label` and report the hint.
    Tee { raw: String, label: String, exit_code: i32 },
    /// Write exactly these texts to stdout and to stderr.
    Write { stdout: String, stderr: String },
    /// Record the run and return its exit code.
    Finish { track: Track, exit_code: i32 },
}

enum Phase {
    Ready,
    Running,
    Filtering { raw: String, measured: String, exit_code: i32 },
    Teeing { measured: String, filtered: String, exit_code: i32 },
    StreamTeeing { raw: String, filtered: String, exit_code: i32 },
    Writing { track: Track, exit_code: i32 },
    Done,
}

/// One run of a wrapped command, driven one event at a time.
pub struct Run<'a> {
    mode: RunMode,
    opts: RunOptions<'a>,
    original: String,
    rtk: String,
    phase: Phase,
}

// ----- the model -----

pub enum EventModel {
    Begin,
    Captured { exit_code: i32, raw: Seq<char>, raw_stdout: Seq<char>, raw_stderr: Seq<char> },
    Streamed { exit_code: i32, raw: Seq<char>, filtered: Seq<char> },
    PassedThrough { exit_code: i32 },
    Filtered { text: Seq<char> },
    Teed { hint: Option<Seq<char>> },
    Written,
}

pub enum TrackModel {
    Measured { original: Seq<char>, rtk: Seq<char>, input: Seq<char>, output: Seq<char> },
    Passthrough { original: Seq<char>, rtk: Seq<char> },
}

pub enum ActionModel {
    Spawn { stdin: StdinMode, output: OutputMode },
    Filter { text: Seq<char>, exit_code: i32 },
    Tee { raw: Seq<char>, label: Seq<char>, exit_code: i32 },
    Write { stdout: Seq<char>, stderr: Seq<char> },
    Finish { track: TrackModel, exit_code: i32 },
}

pub enum PhaseModel {
    /// Not started yet.
    Ready,
    /// The command is running.
    Running,
    /// Waiting for the filter; `measured` is the text handed to it.
    Filtering { raw: Seq<char>, measured: Seq<char>, exit_code: i32 },
    /// Waiting for the tee of a captured run.
    Teeing { measured: Seq<char>, filtered: Seq<char>, exit_code: i32 },
    /// Waiting for the tee of a streamed run.
    StreamTeeing { raw: Seq<char>, filtered: Seq<char>, exit_code: i32 },
    /// Waiting for output to be written before finishing.
    Writing { track: TrackModel, exit_code: i32 },
    /// Finished.
    Done,
}

pub struct RunModel {
    pub mode: RunMode,
    pub opts: OptionsModel,
    pub original: Seq<char>,
    pub rtk: Seq<char>,
    pub phase: PhaseModel,
}

impl View for Event {
    type V = EventModel;

    open spec fn view(&self) -> EventModel {
        match self {
            Event::Begin => EventModel::Begin,
            Event::Captured { exit_code, raw, raw_stdout, raw_stderr } => EventModel::Captured {
                exit_code: *exit_code,
                raw: raw@,
                raw_stdout: raw_stdout@,
                raw_stderr: raw_stderr@,
            },
            Event::Streamed { exit_code, raw, filtered } => EventModel::Streamed {
                exit_code: *exit_code,
                raw: raw@,
                filtered: filtered@,
            },
            Event::PassedThrough { exit_code } => EventModel::PassedThrough { exit_code: *exit_code },
            Event::Filtered { text } => EventModel::Filtered { text: text@ },
            Event::Teed { hint } => EventModel::Teed { hint: hint.deep_view() },
            Event::Written => EventModel::Written,
        }
    }
}

impl View for Track {
    type V = TrackModel;

    open spec fn view(&self) -> TrackModel {
        match self {
            Track::Measured { original, rtk, input, output } => TrackModel::Measured {
                original: original@,
                rtk: rtk@,
                input: input@,
                output: output@,
            },
            Track::Passthrough { original, rtk } => TrackModel::Passthrough {
                original: original@,
                rtk: rtk@,
            },
        }
    }
}

impl View for Action {
    type V = ActionModel;

    open spec fn view(&self) -> ActionModel {
        match self {
            Action::Spawn { stdin, output } => ActionModel::Spawn { stdin: *stdin, output: *output },
            Action::Filter { text, exit_code } => ActionModel::Filter {
                text: text@,
                exit_code: *exit_code,
            },
            Action::Tee { raw, label, exit_code } => ActionModel::Tee {
                raw: raw@,
                label: label@,
                exit_code: *exit_code,
            },
            Action::Write { stdout, stderr } => ActionModel::Write {
                stdout: stdout@,
                stderr: stderr@,
            },
            Action::Finish { track, exit_code } => ActionModel::Finish {
                track: track@,
                exit_code: *exit_code,
            },
        }
    }
}

impl View for Phase {
    type V = PhaseModel;

    closed spec fn view(&self) -> PhaseModel {
        match self {
            Phase::Ready => PhaseModel::Ready,
            Phase::Running => PhaseModel::Running,
            Phase::Filtering { raw, measured, exit_code } => PhaseModel::Filtering {
                raw: raw@,
                measured: measured@,
                exit_code: *exit_code,
            },
            Phase::Teeing { measured, filtered, exit_code } => PhaseModel::Teeing {
                measured: measured@,
                filtered: filtered@,
                exit_code: *exit_code,
            },
            Phase::StreamTeeing { raw, filtered, exit_code } => PhaseModel::StreamTeeing {
                raw: raw@,
                filtered: filtered@,
                exit_code: *exit_code,
            },
            Phase::Writing { track, exit_code } => PhaseModel::Writing {
                track: track@,
                exit_code: *exit_code,
            },
            Phase::Done => PhaseModel::Done,
        }
    }
}

impl<'a> View for Run<'a> {
    type V = RunModel;

    closed spec fn view(&self) -> RunModel {
        RunModel {
            mode: self.mode,
            opts: self.opts@,
            original: self.original@,
            rtk: self.rtk@,
            phase: self.phase@,
        }
    }
}

/// Modes whose output is captured and then filtered as a whole.
pub open spec fn is_captured(mode: RunMode) -> bool {
    mode == RunMode::Filtered || mode == RunMode::FilteredWithExit
}

/// How the command is started in each mode: captured and streamed runs forward this
/// process's stdin only when the options ask for it, pass-through runs always do.
pub open spec fn spawn_action(mode: RunMode, opts: OptionsModel) -> ActionModel {
    match mode {
        RunMode::Streamed => ActionModel::Spawn {
            stdin: if opts.inherit_stdin { StdinMode::Inherit } else { StdinMode::Null },
            output: OutputMode::Streaming,
        },
        RunMode::Passthrough => ActionModel::Spawn {
            stdin: StdinMode::Inherit,
            output: OutputMode::Passthrough,
        },
        _ => ActionModel::Spawn {
            stdin: if opts.inherit_stdin { StdinMode::Inherit } else { StdinMode::Null },
            output: OutputMode::CaptureOnly,
        },
    }
}

/// A stream echoed as it is unless it is blank, in which case nothing is echoed.
pub open spec fn echoed(stream: Seq<char>) -> Seq<char> {
    if is_blank(stream) { Seq::empty() } else { stream }
}

/// `text` followed by a line break.
pub open spec fn line(text: Seq<char>) -> Seq<char> {
    text + "\n"@
}

/// The state a run starts in.
pub open spec fn initial(mode: RunMode, opts: OptionsModel, original: Seq<char>, rtk: Seq<char>) -> RunModel {
    RunModel { mode, opts, original, rtk, phase: PhaseModel::Ready }
}

/// The step relation: the next state and action for an event, or `None` when the
/// event does not fit the state.
pub open spec fn next(m: RunModel, e: EventModel) -> Option<(RunModel, ActionModel)> {
    match m.phase {
        PhaseModel::Ready => match e {
            EventModel::Begin => Some(
                (RunModel { phase: PhaseModel::Running, ..m }, spawn_action(m.mode, m.opts)),
            ),
            _ => None,
        },
        PhaseModel::Running => match e {
            EventModel::Captured { exit_code, raw, raw_stdout, raw_stderr } => if !is_captured(
                m.mode,
            ) {
                None
            } else if m.opts.skip_filter_on_failure && exit_code != 0 {
                let track = TrackModel::Measured {
                    original: m.original,
                    rtk: m.rtk,
                    input: raw,
                    output: raw,
                };
                Some(
                    (
                        RunModel { phase: PhaseModel::Writing { track, exit_code }, ..m },
                        ActionModel::Write { stdout: echoed(raw_stdout), stderr: echoed(raw_stderr) },
                    ),
                )
            } else {
                let text = if m.opts.filter_stdout_only { raw_stdout } else { raw };
                Some(
                    (
                        RunModel {
                            phase: PhaseModel::Filtering { raw, measured: text, exit_code },
                            ..m
                        },
                        ActionModel::Filter { text, exit_code },
                    ),
                )
            },
            EventModel::Streamed { exit_code, raw, filtered } => if m.mode != RunMode::Streamed {
                None
            } else {
                match m.opts.tee_label {
                    Some(label) => Some(
                        (
                            RunModel {
                                phase: PhaseModel::StreamTeeing { raw, filtered, exit_code },
                                ..m
                            },
                            ActionModel::Tee { raw, label, exit_code },
                        ),
                    ),
                    None => Some(
                        (
                            RunModel { phase: PhaseModel::Done, ..m },
                            ActionModel::Finish {
                                track: TrackModel::Measured {
                                    original: m.original,
                                    rtk: m.rtk,
                                    input: raw,
                                    output: filtered,
                                },
                                exit_code,
                            },
                        ),
                    ),
                }
            },
            EventModel::PassedThrough { exit_code } => if m.mode != RunMode::Passthrough {
                None
            } else {
                Some(
                    (
                        RunModel { phase: PhaseModel::Done, ..m },
                        ActionModel::Finish {
                            track: TrackModel::Passthrough {
                                original: m.original,
                                rtk: m.rtk + " (passthrough)"@,
                            },
                            exit_code,
                        },
                    ),
                )
            },
            _ => None,
        },
        PhaseModel::Filtering { raw, measured, exit_code } => match e {
            EventModel::Filtered { text } => match m.opts.tee_label {
                Some(label) => Some(
                    (
                        RunModel {
                            phase: PhaseModel::Teeing { measured, filtered: text, exit_code },
                            ..m
                        },
                        ActionModel::Tee { raw, label, exit_code },
                    ),
                ),
                None => {
                    let shown = guarded(measured, text);
                    let track = TrackModel::Measured {
                        original: m.original,
                        rtk: m.rtk,
                        input: measured,
                        output: shown,
                    };
                    Some(
                        (
                            RunModel { phase: PhaseModel::Writing { track, exit_code }, ..m },
                            ActionModel::Write {
                                stdout: if m.opts.no_trailing_newline { shown } else { line(shown) },
                                stderr: Seq::empty(),
                            },
                        ),
                    )
                },
            },
            _ => None,
        },
        PhaseModel::Teeing { measured, filtered, exit_code } => match e {
            EventModel::Teed { hint } => {
                let shown = guarded(measured, with_hint(filtered, hint));
                let track = TrackModel::Measured {
                    original: m.original,
                    rtk: m.rtk,
                    input: measured,
                    output: shown,
                };
                Some(
                    (
                        RunModel { phase: PhaseModel::Writing { track, exit_code }, ..m },
                        ActionModel::Write { stdout: line(shown), stderr: Seq::empty() },
                    ),
                )
            },
            _ => None,
        },
        PhaseModel::StreamTeeing { raw, filtered, exit_code } => match e {
            EventModel::Teed { hint } => {
                let track = TrackModel::Measured {
                    original: m.original,
                    rtk: m.rtk,
                    input: raw,
                    output: filtered,
                };
                match hint {
                    Some(h) => Some(
                        (
                            RunModel { phase: PhaseModel::Writing { track, exit_code }, ..m },
                            ActionModel::Write { stdout: line(h), stderr: Seq::empty() },
                        ),
                    ),
                    None => Some(
                        (
                            RunModel { phase: PhaseModel::Done, ..m },
                            ActionModel::Finish { track, exit_code },
                        ),
                    ),
                }
            },
            _ => None,
        },
        PhaseModel::Writing { track, exit_code } => match e {
            EventModel::Written => Some(
                (RunModel { phase: PhaseModel::Done, ..m }, ActionModel::Finish { track, exit_code }),
            ),
            _ => None,
        },
        PhaseModel::Done => None,
    }
}


// ----- laws of the step relation -----

/// A run in a captured mode never reaches the streamed tee, and every output it is about
/// to track costs no more tokens than the text it measured.
pub open spec fn within_budget(m: RunModel) -> bool {
    is_captured(m.mode) ==> {
        &&& !(m.phase is StreamTeeing)
        &&& (m.phase matches PhaseModel::Writing { track: TrackModel::Measured { input, output, .. }, .. }
            ==> tokens(output) <= tokens(input))
    }
}

/// A step never changes the run's mode, options or labels.
pub proof fn step_keeps_identity(m: RunModel, e: EventModel)
    requires
        next(m, e) is Some,
    ensures
        next(m, e).unwrap().0.mode == m.mode,
        next(m, e).unwrap().0.opts == m.opts,
        next(m, e).unwrap().0.original == m.original,
        next(m, e).unwrap().0.rtk == m.rtk,
{
}

/// Finishing ends the run, and a finished run accepts no further event.
pub proof fn finish_is_final(m: RunModel, e: EventModel)
    ensures
        m.phase is Done ==> next(m, e) is None,
        next(m, e) matches Some((m2, ActionModel::Finish { .. })) ==> m2.phase is Done,
{
}

/// A run starts within budget.
pub proof fn initial_within_budget(mode: RunMode, opts: OptionsModel, original: Seq<char>, rtk: Seq<char>)
    ensures
        within_budget(initial(mode, opts, original, rtk)),
{
}

/// Captured runs never show more than the command produced: the budget is kept by every
/// step, and every run in a captured mode that finishes with a measurement tracks an
/// output that costs no more tokens than its input.
pub proof fn captured_output_never_exceeds_input(m: RunModel, e: EventModel)
    requires
        within_budget(m),
        next(m, e) is Some,
    ensures
        within_budget(next(m, e).unwrap().0),
        is_captured(m.mode) ==> (next(m, e).unwrap().1 matches ActionModel::Finish {
            track: TrackModel::Measured { input, output, .. },
            ..
        } ==> tokens(output) <= tokens(input)),
{
}

/// What a filtered run tracks is what it printed: after the filter (and the tee, if any),
/// the output is written to stdout as tracked, with a line break unless the options
/// ask for none, and nothing goes to stderr.
pub proof fn tracked_output_is_shown(m: RunModel, e: EventModel)
    requires
        m.phase is Filtering || m.phase is Teeing,
        next(m, e) matches Some((_, ActionModel::Write { .. })),
    ensures
        next(m, e) matches Some((m2, ActionModel::Write { stdout, stderr })) ==> {
            &&& m2.phase matches PhaseModel::Writing {
                track: TrackModel::Measured { output, .. },
                ..
            }
            &&& (stdout == output || stdout == line(output))
            &&& stderr.len() == 0
        },
{
}

/// A failing captured run with early exit skips the filter: its streams are echoed and
/// the raw output is tracked as both input and output.
pub proof fn failure_skips_filter(
    m: RunModel,
    exit_code: i32,
    raw: Seq<char>,
    raw_stdout: Seq<char>,
    raw_stderr: Seq<char>,
)
    requires
        m.phase is Running,
        is_captured(m.mode),
        m.opts.skip_filter_on_failure,
        exit_code != 0,
    ensures
        next(m, EventModel::Captured { exit_code, raw, raw_stdout, raw_stderr }) == Some(
            (
                RunModel {
                    phase: PhaseModel::Writing {
                        track: TrackModel::Measured {
                            original: m.original,
                            rtk: m.rtk,
                            input: raw,
                            output: raw,
                        },
                        exit_code,
                    },
                    ..m
                },
                ActionModel::Write { stdout: echoed(raw_stdout), stderr: echoed(raw_stderr) },
            ),
        ),
{
}

/// The exit code a phase holds on to, once the command has ended.
pub open spec fn held_exit_code(p: PhaseModel) -> Option<i32> {
    match p {
        PhaseModel::Filtering { exit_code, .. } => Some(exit_code),
        PhaseModel::Teeing { exit_code, .. } => Some(exit_code),
        PhaseModel::StreamTeeing { exit_code, .. } => Some(exit_code),
        PhaseModel::Writing { exit_code, .. } => Some(exit_code),
        _ => None,
    }
}

/// The exit code an event reports the command ended with, if it reports one.
pub open spec fn ended_with(e: EventModel) -> Option<i32> {
    match e {
        EventModel::Captured { exit_code, .. } => Some(exit_code),
        EventModel::Streamed { exit_code, .. } => Some(exit_code),
        EventModel::PassedThrough { exit_code } => Some(exit_code),
        _ => None,
    }
}

/// Whether a step hands on `code`: the next phase holds it, or the step finishes with it.
pub open spec fn hands_on(r: (RunModel, ActionModel), code: i32) -> bool {
    ||| held_exit_code(r.0.phase) == Some(code)
    ||| r.1 matches ActionModel::Finish { exit_code, .. } && exit_code == code
}

/// A run returns the exit code its command ended with: the event that ends the command
/// fixes it, and every later step keeps it until the run finishes with it.
pub proof fn exit_code_is_kept(m: RunModel, e: EventModel)
    requires
        next(m, e) is Some,
    ensures
        m.phase is Running ==> ended_with(e) is Some && hands_on(next(m, e).unwrap(), ended_with(e).unwrap()),
        held_exit_code(m.phase) is Some ==> hands_on(next(m, e).unwrap(), held_exit_code(m.phase).unwrap()),
{
}

/// The event that answers an action: the end of the command it spawned, the filter's
/// text, the tee's hint, or the acknowledgement of a write. Finishing needs no answer.
pub open spec fn answers(a: ActionModel, e: EventModel) -> bool {
    match a {
        ActionModel::Spawn { output, .. } => match output {
            OutputMode::CaptureOnly => e is Captured,
            OutputMode::Streaming => e is Streamed,
            OutputMode::Passthrough => e is PassedThrough,
        },
        ActionModel::Filter { .. } => e is Filtered,
        ActionModel::Tee { .. } => e is Teed,
        ActionModel::Write { .. } => e is Written,
        ActionModel::Finish { .. } => false,
    }
}

/// A run never falls out of step: a new run accepts `Begin`, and after every step the
/// event that answers its action is accepted, whatever it carries.
pub proof fn answers_are_accepted(m: RunModel, e: EventModel, reply: EventModel)
    ensures
        m.phase is Ready ==> next(m, EventModel::Begin) is Some,
        next(m, e) is Some && answers(next(m, e).unwrap().1, reply) ==> next(
            next(m, e).unwrap().0,
            reply,
        ) is Some,
{
}

/// Starting a run: the child reads this process's stdin exactly when the options ask
/// for it or the run passes its output through; captured modes collect the output,
/// streamed runs stream it, pass-through runs let it through.
pub proof fn spawn_follows_mode_and_stdin_option(m: RunModel)
    requires
        m.phase is Ready,
    ensures
        next(m, EventModel::Begin) matches Some((m2, ActionModel::Spawn { stdin, output })) && {
            &&& m2.phase is Running
            &&& (stdin == StdinMode::Inherit <==> (m.opts.inherit_stdin || m.mode
                == RunMode::Passthrough))
            &&& (stdin == StdinMode::Null <==> !(stdin == StdinMode::Inherit))
            &&& (output == OutputMode::CaptureOnly <==> (m.mode == RunMode::Filtered || m.mode
                == RunMode::FilteredWithExit))
            &&& (output == OutputMode::Streaming <==> m.mode == RunMode::Streamed)
            &&& (output == OutputMode::Passthrough <==> m.mode == RunMode::Passthrough)
        },
{
}

/// The filter of a captured run sees the combined output, or stdout alone when the
/// options ask for it; that same text is what the run measures, and the combined output
/// is kept for the tee.
pub proof fn filter_sees_requested_output(
    m: RunModel,
    exit_code: i32,
    raw: Seq<char>,
    raw_stdout: Seq<char>,
    raw_stderr: Seq<char>,
)
    requires
        m.phase is Running,
        m.mode == RunMode::Filtered || m.mode == RunMode::FilteredWithExit,
        !m.opts.skip_filter_on_failure || exit_code == 0,
    ensures
        next(m, EventModel::Captured { exit_code, raw, raw_stdout, raw_stderr }) matches Some(
            (m2, ActionModel::Filter { text, exit_code: code }),
        ) && {
            &&& code == exit_code
            &&& (m.opts.filter_stdout_only ==> text == raw_stdout)
            &&& (!m.opts.filter_stdout_only ==> text == raw)
            &&& m2.phase matches PhaseModel::Filtering { raw: kept, measured, exit_code: held }
                && kept == raw && measured == text && held == exit_code
        },
{
}

/// A failing captured run with early exit echoes each stream exactly when it holds a
/// character that is not whitespace, and writes nothing for a stream that is all
/// whitespace; it tracks the combined output as both input and output.
pub proof fn early_exit_echoes_non_blank_streams(
    m: RunModel,
    exit_code: i32,
    raw: Seq<char>,
    raw_stdout: Seq<char>,
    raw_stderr: Seq<char>,
)
    requires
        m.phase is Running,
        m.mode == RunMode::Filtered || m.mode == RunMode::FilteredWithExit,
        m.opts.skip_filter_on_failure,
        exit_code != 0,
    ensures
        next(m, EventModel::Captured { exit_code, raw, raw_stdout, raw_stderr }) matches Some(
            (m2, ActionModel::Write { stdout, stderr }),
        ) && {
            &&& ((exists|i: int| 0 <= i < raw_stdout.len() && !is_white_space(raw_stdout[i]))
                ==> stdout == raw_stdout)
            &&& ((forall|i: int| 0 <= i < raw_stdout.len() ==> is_white_space(raw_stdout[i]))
                ==> stdout.len() == 0)
            &&& ((exists|i: int| 0 <= i < raw_stderr.len() && !is_white_space(raw_stderr[i]))
                ==> stderr == raw_stderr)
            &&& ((forall|i: int| 0 <= i < raw_stderr.len() ==> is_white_space(raw_stderr[i]))
                ==> stderr.len() == 0)
            &&& m2.phase matches PhaseModel::Writing {
                track: TrackModel::Measured { original, rtk, input, output },
                exit_code: held,
            } && original == m.original && rtk == m.rtk && input == raw && output == raw && held
                == exit_code
        },
{
}

/// What gets teed is the raw output: in a captured run the combined output the command
/// produced, in a streamed run the raw output the stream reported; the label is the
/// one the options give.
pub proof fn tee_carries_raw_output(m: RunModel, e: EventModel)
    requires
        m.opts.tee_label is Some,
        (m.phase is Filtering && e is Filtered) || (m.phase is Running && m.mode == RunMode::Streamed
            && e is Streamed),
    ensures
        next(m, e) matches Some((_, ActionModel::Tee { raw, label, exit_code })) && {
            &&& label == m.opts.tee_label.unwrap()
            &&& (m.phase matches PhaseModel::Filtering { raw: kept, exit_code: held, .. } ==> raw
                == kept && exit_code == held)
            &&& (e matches EventModel::Streamed { raw: streamed, exit_code: ended, .. } ==> raw
                == streamed && exit_code == ended)
        },
{
}

/// A streamed run tracks its raw output as input and what the stream filter showed as
/// output, whether or not it was teed.
pub proof fn streamed_run_tracks_raw_against_shown(m: RunModel, exit_code: i32, raw: Seq<char>, filtered: Seq<char>, hint: Option<Seq<char>>)
    requires
        m.phase is Running,
        m.mode == RunMode::Streamed,
    ensures
        m.opts.tee_label is None ==> next(m, EventModel::Streamed { exit_code, raw, filtered })
            == Some(
            (
                RunModel { phase: PhaseModel::Done, ..m },
                ActionModel::Finish {
                    track: TrackModel::Measured { original: m.original, rtk: m.rtk, input: raw, output: filtered },
                    exit_code,
                },
            ),
        ),
        m.opts.tee_label is Some ==> (next(next(m, EventModel::Streamed { exit_code, raw, filtered }).unwrap().0, EventModel::Teed { hint }) matches Some((m3, a3)) && {
            &&& hint is None ==> a3 == ActionModel::Finish {
                track: TrackModel::Measured { original: m.original, rtk: m.rtk, input: raw, output: filtered },
                exit_code,
            }
            &&& hint matches Some(h) ==> a3 == ActionModel::Write { stdout: h + "\n"@, stderr: Seq::empty() }
                && m3.phase == PhaseModel::Writing {
                track: TrackModel::Measured { original: m.original, rtk: m.rtk, input: raw, output: filtered },
                exit_code,
            }
        }),
{
}

/// After the filter of a captured run without a tee label, the run shows the filtered
/// text when it costs no more tokens than the measured text and the measured text
/// otherwise, followed by a line break unless the options ask for none; it writes
/// nothing to stderr and tracks the measured text against what it showed.
pub proof fn filtered_output_is_guarded(m: RunModel, text: Seq<char>)
    requires
        m.phase is Filtering,
        m.opts.tee_label is None,
    ensures
        next(m, EventModel::Filtered { text }) matches Some(
            (m2, ActionModel::Write { stdout, stderr }),
        ) && {
            let measured = m.phase->Filtering_measured;
            let shown = if tokens(text) <= tokens(measured) { text } else { measured };
            &&& stdout == (if m.opts.no_trailing_newline { shown } else { shown + "\n"@ })
            &&& stderr.len() == 0
            &&& m2.phase == PhaseModel::Writing {
                track: TrackModel::Measured {
                    original: m.original,
                    rtk: m.rtk,
                    input: measured,
                    output: shown,
                },
                exit_code: m.phase->Filtering_exit_code,
            }
        },
{
}

/// With a tee label, the filtered text waits for the tee; once its hint is back the run
/// shows the filtered text with the hint on a line below it, when that costs no more
/// tokens than the measured text, and the measured text otherwise, always followed by a
/// line break, and tracks the measured text against what it showed.
pub proof fn teed_output_is_guarded(m: RunModel, text: Seq<char>, hint: Option<Seq<char>>)
    requires
        m.phase is Filtering,
        m.opts.tee_label is Some,
    ensures
        next(m, EventModel::Filtered { text }) matches Some((m2, _)) && next(
            m2,
            EventModel::Teed { hint },
        ) matches Some((m3, ActionModel::Write { stdout, stderr })) && {
            let measured = m.phase->Filtering_measured;
            let body = match hint {
                Some(h) => text + "\n"@ + h,
                None => text,
            };
            let shown = if tokens(body) <= tokens(measured) { body } else { measured };
            &&& stdout == shown + "\n"@
            &&& stderr.len() == 0
            &&& m3.phase == PhaseModel::Writing {
                track: TrackModel::Measured {
                    original: m.original,
                    rtk: m.rtk,
                    input: measured,
                    output: shown,
                },
                exit_code: m.phase->Filtering_exit_code,
            }
        },
{
}

/// Once its output is written, a run finishes with the track and exit code it was
/// holding.
pub proof fn written_run_finishes_with_its_track(m: RunModel, track: TrackModel, exit_code: i32)
    requires
        m.phase == (PhaseModel::Writing { track, exit_code }),
    ensures
        next(m, EventModel::Written) == Some(
            (RunModel { phase: PhaseModel::Done, ..m }, ActionModel::Finish { track, exit_code }),
        ),
{
}

/// A pass-through run finishes with the exit code its command ended with and is tracked
/// under its original label and its rtk label marked ` (passthrough)`.
pub proof fn passthrough_run_is_tracked_by_label(m: RunModel, exit_code: i32)
    requires
        m.phase is Running,
        m.mode == RunMode::Passthrough,
    ensures
        next(m, EventModel::PassedThrough { exit_code }) == Some(
            (
                RunModel { phase: PhaseModel::Done, ..m },
                ActionModel::Finish {
                    track: TrackModel::Passthrough {
                        original: m.original,
                        rtk: m.rtk + " (passthrough)"@,
                    },
                    exit_code,
                },
            ),
        ),
{
}

fn copy_str(s: &str) -> (r: String)
    ensures
        r@ == s@,
{
    String::from_str(s)
}

fn empty_string() -> (r: String)
    ensures
        r@ == Seq::<char>::empty(),
{
    String::new()
}

fn with_newline(s: String) -> (r: String)
    ensures
        r@ == line(s@),
{
    let mut r = s;
    r.append("\n");
    r
}

impl<'a> Run<'a> {
    /// A run of `tool_name` with the displayed arguments, not started yet; it is
    /// measured under the labels that `tracking_labels` gives.
    pub fn new(mode: RunMode, tool_name: &str, args_display: &str, opts: RunOptions<'a>) -> (r: Run<'a>)
        ensures
            r@ == initial(
                mode,
                opts@,
                original_label(tool_name@, args_display@),
                rtk_label(opts, tool_name@, args_display@),
            ),
    {
        let (original, rtk) = tracking_labels(tool_name, args_display, &opts);
        Run { mode, opts, original, rtk, phase: Phase::Ready }
    }

    /// Advances the run by one event. Returns the next state and what to do, or the
    /// run unchanged when the event does not fit its state.
    pub fn step(self, event: Event) -> (r: Result<(Run<'a>, Action), Run<'a>>)
        ensures
            match r {
                Ok((run, action)) => next(self@, event@) == Some((run@, action@)),
                Err(run) => next(self@, event@) is None && run@ == self@,
            },
    {
        let Run { mode, opts, original, rtk, phase } = self;
        match phase {
            Phase::Ready => match event {
                Event::Begin => {
                    let action = match mode {
                        RunMode::Streamed => Action::Spawn {
                            stdin: if opts.inherit_stdin {
                                StdinMode::Inherit
                            } else {
                                StdinMode::Null
                            },
                            output: OutputMode::Streaming,
                        },
                        RunMode::Passthrough => Action::Spawn {
                            stdin: StdinMode::Inherit,
                            output: OutputMode::Passthrough,
                        },
                        _ => Action::Spawn {
                            stdin: if opts.inherit_stdin {
                                StdinMode::Inherit
                            } else {
                                StdinMode::Null
                            },
                            output: OutputMode::CaptureOnly,
                        },
                    };
                    Ok((Run { mode, opts, original, rtk, phase: Phase::Running }, action))
                },
                _ => Err(Run { mode, opts, original, rtk, phase: Phase::Ready }),
            },
            Phase::Running => match event {
                Event::Captured { exit_code, raw, raw_stdout, raw_stderr } => {
                    if !(mode == RunMode::Filtered || mode == RunMode::FilteredWithExit) {
                        Err(Run { mode, opts, original, rtk, phase: Phase::Running })
                    } else if opts.skip_filter_on_failure && exit_code != 0 {
                        let stdout = if blank(raw_stdout.as_str()) {
                            empty_string()
                        } else {
                            raw_stdout
                        };
                        let stderr = if blank(raw_stderr.as_str()) {
                            empty_string()
                        } else {
                            raw_stderr
                        };
                        let track = Track::Measured {
                            original: original.clone(),
                            rtk: rtk.clone(),
                            input: raw.clone(),
                            output: raw,
                        };
                        Ok(
                            (
                                Run { mode, opts, original, rtk, phase: Phase::Writing { track, exit_code } },
                                Action::Write { stdout, stderr },
                            ),
                        )
                    } else {
                        let text = if opts.filter_stdout_only {
                            raw_stdout
                        } else {
                            raw.clone()
                        };
                        let handed = text.clone();
                        Ok(
                            (
                                Run {
                                    mode,
                                    opts,
                                    original,
                                    rtk,
                                    phase: Phase::Filtering { raw, measured: text, exit_code },
                                },
                                Action::Filter { text: handed, exit_code },
                            ),
                        )
                    }
                },
                Event::Streamed { exit_code, raw, filtered } => {
                    if mode != RunMode::Streamed {
                        Err(Run { mode, opts, original, rtk, phase: Phase::Running })
                    } else {
                        match opts.tee_label {
                            Some(label) => {
                                let raw_copy = raw.clone();
                                Ok(
                                    (
                                        Run {
                                            mode,
                                            opts,
                                            original,
                                            rtk,
                                            phase: Phase::StreamTeeing { raw, filtered, exit_code },
                                        },
                                        Action::Tee { raw: raw_copy, label: copy_str(label), exit_code },
                                    ),
                                )
                            },
                            None => {
                                let track = Track::Measured {
                                    original: original.clone(),
                                    rtk: rtk.clone(),
                                    input: raw,
                                    output: filtered,
                                };
                                Ok(
                                    (
                                        Run { mode, opts, original, rtk, phase: Phase::Done },
                                        Action::Finish { track, exit_code },
                                    ),
                                )
                            },
                        }
                    }
                },
                Event::PassedThrough { exit_code } => {
                    if mode != RunMode::Passthrough {
                        Err(Run { mode, opts, original, rtk, phase: Phase::Running })
                    } else {
                        let mut label = rtk.clone();
                        label.append(" (passthrough)");
                        let track = Track::Passthrough { original: original.clone(), rtk: label };
                        Ok(
                            (
                                Run { mode, opts, original, rtk, phase: Phase::Done },
                                Action::Finish { track, exit_code },
                            ),
                        )
                    }
                },
                _ => Err(Run { mode, opts, original, rtk, phase: Phase::Running }),
            },
            Phase::Filtering { raw, measured, exit_code } => match event {
                Event::Filtered { text } => match opts.tee_label {
                    Some(label) => Ok(
                        (
                            Run {
                                mode,
                                opts,
                                original,
                                rtk,
                                phase: Phase::Teeing { measured, filtered: text, exit_code },
                            },
                            Action::Tee { raw, label: copy_str(label), exit_code },
                        ),
                    ),
                    None => {
                        let shown = copy_str(never_worse(measured.as_str(), text.as_str()));
                        let stdout = if opts.no_trailing_newline {
                            shown.clone()
                        } else {
                            with_newline(shown.clone())
                        };
                        let track = Track::Measured {
                            original: original.clone(),
                            rtk: rtk.clone(),
                            input: measured,
                            output: shown,
                        };
                        Ok(
                            (
                                Run { mode, opts, original, rtk, phase: Phase::Writing { track, exit_code } },
                                Action::Write { stdout, stderr: empty_string() },
                            ),
                        )
                    },
                },
                _ => Err(
                    Run { mode, opts, original, rtk, phase: Phase::Filtering { raw, measured, exit_code } },
                ),
            },
            Phase::Teeing { measured, filtered, exit_code } => match event {
                Event::Teed { hint } => {
                    let shown = match &hint {
                        Some(h) => print_with_hint(filtered.as_str(), Some(h.as_str()), measured.as_str()),
                        None => print_with_hint(filtered.as_str(), None, measured.as_str()),
                    };
                    let stdout = with_newline(shown.clone());
                    let track = Track::Measured {
                        original: original.clone(),
                        rtk: rtk.clone(),
                        input: measured,
                        output: shown,
                    };
                    Ok(
                        (
                            Run { mode, opts, original, rtk, phase: Phase::Writing { track, exit_code } },
                            Action::Write { stdout, stderr: empty_string() },
                        ),
                    )
                },
                _ => Err(
                    Run { mode, opts, original, rtk, phase: Phase::Teeing { measured, filtered, exit_code } },
                ),
            },
            Phase::StreamTeeing { raw, filtered, exit_code } => match event {
                Event::Teed { hint } => {
                    let track = Track::Measured {
                        original: original.clone(),
                        rtk: rtk.clone(),
                        input: raw,
                        output: filtered,
                    };
                    match hint {
                        Some(h) => Ok(
                            (
                                Run { mode, opts, original, rtk, phase: Phase::Writing { track, exit_code } },
                                Action::Write { stdout: with_newline(h), stderr: empty_string() },
                            ),
                        ),
                        None => Ok(
                            (
                                Run { mode, opts, original, rtk, phase: Phase::Done },
                                Action::Finish { track, exit_code },
                            ),
                        ),
                    }
                },
                _ => Err(
                    Run {
                        mode,
                        opts,
                        original,
                        rtk,
                        phase: Phase::StreamTeeing { raw, filtered, exit_code },
                    },
                ),
            },
            Phase::Writing { track, exit_code } => match event {
                Event::Written => Ok(
                    (Run { mode, opts, original, rtk, phase: Phase::Done }, Action::Finish { track, exit_code }),
                ),
                _ => Err(Run { mode, opts, original, rtk, phase: Phase::Writing { track, exit_code } }),
            },
            Phase::Done => Err(Run { mode, opts, original, rtk, phase: Phase::Done }),
        }
    }
}

} // verus!
