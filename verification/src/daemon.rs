//! The daemon's bookkeeping and the decisions of its commands: the pid and
//! mode files, whether a daemon runs, the status report, and the stages a
//! foreground run or a daemon goes through.
use vstd::prelude::*;
use vstd::string::*;
use crate::cli::{mode_name_text, mode_scale_text};
use crate::mapping::ScaleMode;
use crate::text::{decimal_text, parsed_u32, parse_u32, str_eq, trim, trimmed, u32_text};

verus! {

/// Where the running daemon's process id is kept.
pub fn pid_file_path() -> (p: &'static str)
    ensures
        p@ == "/tmp/keystream.pid"@,
{
    "/tmp/keystream.pid"
}

/// Where the running daemon's mode name is kept.
pub fn mode_file_path() -> (p: &'static str)
    ensures
        p@ == "/tmp/keystream.mode"@,
{
    "/tmp/keystream.mode"
}

/// The process id that the pid file's `contents` hold: the whole text,
/// trimmed, read as a `u32`.
pub fn parse_pid(contents: &str) -> (pid: Option<u32>)
    ensures
        pid == parsed_u32(trimmed(contents@)),
{
    parse_u32(trim(contents))
}

/// What the pid file holds for process `pid`.
pub fn pid_text(pid: u32) -> (s: String)
    ensures
        s@ == decimal_text(pid as nat),
{
    u32_text(pid)
}

/// The mode name that the mode file's `contents` hold: the text, trimmed.
pub fn parse_mode_file(contents: &str) -> (mode: String)
    ensures
        mode@ == trimmed(contents@),
{
    String::from_str(trim(contents))
}

/// Whether a daemon runs, as the pid file and the process table tell.
#[derive(Clone, Copy, Debug, PartialEq, Eq, Structural)]
pub enum DaemonState {
    /// No pid file.
    Absent,
    /// A pid file whose process is gone.
    Stale(u32),
    /// A pid file whose process runs.
    Live(u32),
}

/// The daemon's state, from the pid file's process id (if one was read) and
/// whether that process runs.
pub fn daemon_state(pid: Option<u32>, running: bool) -> (st: DaemonState)
    ensures
        st == (match pid {
            None => DaemonState::Absent,
            Some(p) => if running {
                DaemonState::Live(p)
            } else {
                DaemonState::Stale(p)
            },
        }),
{
    match pid {
        None => DaemonState::Absent,
        Some(p) => if running {
            DaemonState::Live(p)
        } else {
            DaemonState::Stale(p)
        },
    }
}

/// The mode name the status report shows: the mode file's, or
/// "pentatonic" when there is none.
pub open spec fn reported_mode(mode_file: Option<Seq<char>>) -> Seq<char> {
    match mode_file {
        Some(m) => m,
        None => mode_name_text(ScaleMode::Pentatonic),
    }
}

/// The scale the status report shows for mode name `mode`: lydian's for
/// "lydian", pentatonic's for anything else.
pub open spec fn reported_scale(mode: Seq<char>) -> Seq<char> {
    if mode == mode_name_text(ScaleMode::Lydian) {
        mode_scale_text(ScaleMode::Lydian)
    } else {
        mode_scale_text(ScaleMode::Pentatonic)
    }
}

/// What `status` reports.
#[derive(Debug, PartialEq, Eq)]
pub enum Status {
    /// No daemon runs; a pid file left by a daemon that is gone is to be
    /// removed.
    Offline { remove_stale_pid_file: bool },
    /// A daemon runs as process `pid`, in mode `mode`, playing `scale`.
    Online { pid: u32, mode: String, scale: &'static str },
}

/// The status report for daemon state `state`, with the mode file's text
/// (trimmed) if it could be read.
pub fn status_report(state: DaemonState, mode_file: Option<String>) -> (r: Status)
    ensures
        match state {
            DaemonState::Absent => r matches Status::Offline { remove_stale_pid_file } && !remove_stale_pid_file,
            DaemonState::Stale(_) => r matches Status::Offline { remove_stale_pid_file } && remove_stale_pid_file,
            DaemonState::Live(p) => r matches Status::Online { pid, mode, scale } && {
                &&& pid == p
                &&& mode@ == reported_mode(
                    match mode_file {
                        Some(m) => Some(m@),
                        None => None,
                    },
                )
                &&& scale@ == reported_scale(mode@)
            },
        },
{
    match state {
        DaemonState::Absent => Status::Offline { remove_stale_pid_file: false },
        DaemonState::Stale(_) => Status::Offline { remove_stale_pid_file: true },
        DaemonState::Live(p) => {
            let mode = match mode_file {
                Some(m) => m,
                None => String::from_str(crate::cli::mode_name(ScaleMode::Pentatonic)),
            };
            let scale = if str_eq(mode.as_str(), &['l', 'y', 'd', 'i', 'a', 'n']) {
                crate::cli::mode_scale(ScaleMode::Lydian)
            } else {
                crate::cli::mode_scale(ScaleMode::Pentatonic)
            };
            Status::Online { pid: p, mode, scale }
        },
    }
}

/// The texts of some lines.
pub open spec fn string_texts(lines: Seq<String>) -> Seq<Seq<char>> {
    lines.map_values(|l: String| l@)
}

/// `label` followed by `value`, as one line.
fn labelled(label: &str, value: &str) -> (line: String)
    ensures
        line@ == label@ + value@,
{
    let mut line = String::from_str(label);
    line.append(value);
    line
}

/// The lines that `status` prints below the banner for report `status`.
pub open spec fn status_text(status: Status) -> Seq<Seq<char>> {
    match status {
        Status::Offline { .. } => seq!["daemon    : offline"@, ""@],
        Status::Online { pid, mode, scale } => seq![
            "daemon    : online"@,
            "mode      : "@ + mode@,
            "scale     : "@ + scale@,
            "voices    : 32"@,
            "pid       : "@ + decimal_text(pid as nat),
            ""@,
        ],
    }
}

/// The lines that `status` prints below the banner.
pub fn status_lines(status: &Status) -> (lines: Vec<String>)
    ensures
        string_texts(lines@) == status_text(*status),
{
    let mut lines: Vec<String> = Vec::new();
    match status {
        Status::Offline { .. } => {
            lines.push(String::from_str("daemon    : offline"));
            lines.push(String::from_str(""));
        },
        Status::Online { pid, mode, scale } => {
            lines.push(String::from_str("daemon    : online"));
            lines.push(labelled("mode      : ", mode.as_str()));
            lines.push(labelled("scale     : ", scale));
            lines.push(String::from_str("voices    : 32"));
            let pid_line = labelled("pid       : ", pid_text(*pid).as_str());
            lines.push(pid_line);
            lines.push(String::from_str(""));
        },
    }
    assert(string_texts(lines@) =~= status_text(*status));
    lines
}

/// The lines that `stop` prints below the banner once it has dealt with a
/// daemon in state `state`: a daemon that ran is now offline; otherwise
/// none was running.
pub open spec fn stop_text(state: DaemonState) -> Seq<Seq<char>> {
    match state {
        DaemonState::Live(_) => seq![""@, "OFFLINE"@, ""@],
        _ => seq!["daemon not running"@, ""@],
    }
}

/// The closing lines of `stop`.
pub fn stop_lines(state: DaemonState) -> (lines: Vec<&'static str>)
    ensures
        crate::cli::line_texts(lines@) == stop_text(state),
{
    let lines = match state {
        DaemonState::Live(_) => vec!["", "OFFLINE", ""],
        _ => vec!["daemon not running", ""],
    };
    assert(crate::cli::line_texts(lines@) =~= stop_text(state));
    lines
}

/// The lines that `start` prints when a daemon already runs as `pid`.
pub open spec fn already_running_text(pid: u32) -> Seq<Seq<char>> {
    seq!["daemon already running"@, "pid       : "@ + decimal_text(pid as nat), ""@]
}

/// The lines `start` prints when a daemon already runs as `pid`.
pub fn already_running_lines(pid: u32) -> (lines: Vec<String>)
    ensures
        string_texts(lines@) == already_running_text(pid),
{
    let mut lines: Vec<String> = Vec::new();
    lines.push(String::from_str("daemon already running"));
    lines.push(labelled("pid       : ", pid_text(pid).as_str()));
    lines.push(String::from_str(""));
    assert(string_texts(lines@) =~= already_running_text(pid));
    lines
}

/// The stages of a run, in the foreground or as the daemon.
#[derive(Clone, Copy, Debug, PartialEq, Eq, Structural)]
pub enum Stage {
    /// Check the accessibility permission that keyboard capture needs.
    CheckPermission,
    /// Install the handler that turns ctrl+c and termination into a stop.
    InstallSignals,
    /// Open the audio output.
    OpenAudio,
    /// Attach to the keyboard's events.
    AttachKeyboard,
    /// Play until told to stop; checked every tenth of a second.
    Listen,
}

/// How a run ends.
#[derive(Clone, Copy, Debug, PartialEq, Eq, Structural)]
pub enum Exit {
    PermissionMissing,
    NoSignalHandler,
    AudioFailed,
    KeyboardFailed,
    Interrupted,
    AudioStreamError,
}

/// What happened at the current stage: a setup stage succeeded or failed,
/// or, while listening, whether a stop was asked for and whether the audio
/// stream reported an error.
#[derive(Clone, Copy, Debug, PartialEq, Eq, Structural)]
pub enum Event {
    Setup(bool),
    Poll { interrupted: bool, audio_error: bool },
}

/// Where a run goes next.
#[derive(Clone, Copy, Debug, PartialEq, Eq, Structural)]
pub enum Step {
    Next(Stage),
    Finish(Exit),
}

/// The event kind that fits `stage`: polls while listening, setup results
/// before.
pub open spec fn event_fits(stage: Stage, event: Event) -> bool {
    (stage == Stage::Listen) == (event is Poll)
}

/// The step after `event` at `stage`. A foreground run stops when no
/// signal handler can be installed; the daemon goes on without one. A
/// listening run stops when asked to, or else on an audio error.
pub open spec fn step_for(foreground: bool, stage: Stage, event: Event) -> Step {
    match event {
        Event::Setup(ok) => match stage {
            Stage::CheckPermission => if ok {
                Step::Next(Stage::InstallSignals)
            } else {
                Step::Finish(Exit::PermissionMissing)
            },
            Stage::InstallSignals => if ok || !foreground {
                Step::Next(Stage::OpenAudio)
            } else {
                Step::Finish(Exit::NoSignalHandler)
            },
            Stage::OpenAudio => if ok {
                Step::Next(Stage::AttachKeyboard)
            } else {
                Step::Finish(Exit::AudioFailed)
            },
            Stage::AttachKeyboard => if ok {
                Step::Next(Stage::Listen)
            } else {
                Step::Finish(Exit::KeyboardFailed)
            },
            Stage::Listen => Step::Next(Stage::Listen),
        },
        Event::Poll { interrupted, audio_error } => if interrupted {
            Step::Finish(Exit::Interrupted)
        } else if audio_error {
            Step::Finish(Exit::AudioStreamError)
        } else {
            Step::Next(Stage::Listen)
        },
    }
}

/// The step after `event` at `stage` of a foreground run (`foreground`) or
/// of the daemon.
pub fn next_step(foreground: bool, stage: Stage, event: Event) -> (step: Step)
    requires
        event_fits(stage, event),
    ensures
        step == step_for(foreground, stage, event),
{
    match event {
        Event::Setup(ok) => match stage {
            Stage::CheckPermission => if ok {
                Step::Next(Stage::InstallSignals)
            } else {
                Step::Finish(Exit::PermissionMissing)
            },
            Stage::InstallSignals => if ok || !foreground {
                Step::Next(Stage::OpenAudio)
            } else {
                Step::Finish(Exit::NoSignalHandler)
            },
            Stage::OpenAudio => if ok {
                Step::Next(Stage::AttachKeyboard)
            } else {
                Step::Finish(Exit::AudioFailed)
            },
            Stage::AttachKeyboard => if ok {
                Step::Next(Stage::Listen)
            } else {
                Step::Finish(Exit::KeyboardFailed)
            },
            Stage::Listen => Step::Next(Stage::Listen),
        },
        Event::Poll { interrupted, audio_error } => if interrupted {
            Step::Finish(Exit::Interrupted)
        } else if audio_error {
            Step::Finish(Exit::AudioStreamError)
        } else {
            Step::Next(Stage::Listen)
        },
    }
}

/// The process id written to the pid file reads back as that id.
pub proof fn pid_file_reads_back(pid: u32)
    ensures
        parsed_u32(trimmed(decimal_text(pid as nat))) == Some(pid),
{
    crate::text::parse_undoes_text(pid);
}

/// The mode name written to the mode file reads back unchanged, and the
/// status report then shows that mode's scale.
pub proof fn mode_file_reads_back(mode: ScaleMode)
    ensures
        trimmed(mode_name_text(mode)) == mode_name_text(mode),
        reported_scale(trimmed(mode_name_text(mode))) == mode_scale_text(mode),
{
    let t = mode_name_text(mode);
    assert(trimmed(t) == t) by {
        assert(crate::text::trim_start(t) == t);
        assert(crate::text::trim_end(t) == t);
    }
}

/// Position of a stage in a run.
pub open spec fn stage_rank(stage: Stage) -> int {
    match stage {
        Stage::CheckPermission => 0,
        Stage::InstallSignals => 1,
        Stage::OpenAudio => 2,
        Stage::AttachKeyboard => 3,
        Stage::Listen => 4,
    }
}

/// A run goes through its stages in order: a setup stage that succeeds
/// hands over to the next one, and a run listens until it is told to stop
/// or its audio fails, and only then.
pub proof fn stages_advance_in_order(foreground: bool, stage: Stage, event: Event)
    requires
        event_fits(stage, event),
    ensures
        step_for(foreground, stage, event) matches Step::Next(next) ==> stage_rank(next) == stage_rank(
            stage,
        ) + 1 || (stage == Stage::Listen && next == Stage::Listen),
        stage != Stage::Listen ==> (step_for(foreground, stage, Event::Setup(true)) matches Step::Next(
            next,
        ) && stage_rank(next) == stage_rank(stage) + 1),
        event matches Event::Poll { interrupted, audio_error } ==> (step_for(
            foreground,
            stage,
            event,
        ) is Finish <==> interrupted || audio_error),
{
}

/// What ends a run, foreground or daemon: a missing accessibility
/// permission, audio that cannot be opened and a keyboard that cannot be
/// attached end both; a missing signal handler ends a foreground run only,
/// the daemon goes on to open the audio.
pub proof fn setup_failures_end_runs(foreground: bool)
    ensures
        step_for(foreground, Stage::CheckPermission, Event::Setup(false)) == Step::Finish(
            Exit::PermissionMissing,
        ),
        step_for(foreground, Stage::OpenAudio, Event::Setup(false)) == Step::Finish(
            Exit::AudioFailed,
        ),
        step_for(foreground, Stage::AttachKeyboard, Event::Setup(false)) == Step::Finish(
            Exit::KeyboardFailed,
        ),
        step_for(true, Stage::InstallSignals, Event::Setup(false)) == Step::Finish(
            Exit::NoSignalHandler,
        ),
        step_for(false, Stage::InstallSignals, Event::Setup(false)) == Step::Next(Stage::OpenAudio),
        step_for(foreground, Stage::CheckPermission, Event::Setup(true)) == Step::Next(
            Stage::InstallSignals,
        ),
        step_for(foreground, Stage::InstallSignals, Event::Setup(true)) == Step::Next(
            Stage::OpenAudio,
        ),
        step_for(foreground, Stage::OpenAudio, Event::Setup(true)) == Step::Next(
            Stage::AttachKeyboard,
        ),
        step_for(foreground, Stage::AttachKeyboard, Event::Setup(true)) == Step::Next(Stage::Listen),
{
}

/// While listening, a stop request ends the run as interrupted, an audio
/// error ends it as such, and otherwise the run keeps listening.
pub proof fn listening_ends_on_stop_or_error(foreground: bool, interrupted: bool, audio_error: bool)
    ensures
        step_for(foreground, Stage::Listen, Event::Poll { interrupted, audio_error }) == (if interrupted {
            Step::Finish(Exit::Interrupted)
        } else if audio_error {
            Step::Finish(Exit::AudioStreamError)
        } else {
            Step::Next(Stage::Listen)
        }),
{
}

/// Without a mode file the status report names pentatonic and its scale;
/// with one, it names the file's mode, and shows lydian's scale for
/// "lydian" and pentatonic's for any other text.
pub proof fn status_mode_defaults_to_pentatonic(text: Seq<char>)
    ensures
        reported_mode(None) == seq!['p', 'e', 'n', 't', 'a', 't', 'o', 'n', 'i', 'c'],
        reported_scale(reported_mode(None)) == "C D E G A"@,
        reported_mode(Some(text)) == text,
        reported_scale(seq!['l', 'y', 'd', 'i', 'a', 'n']) == "C D E F# G A B"@,
        text != seq!['l', 'y', 'd', 'i', 'a', 'n'] ==> reported_scale(text) == "C D E G A"@,
{
}

} // verus!
