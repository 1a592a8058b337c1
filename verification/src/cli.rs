//! The command line: reading the arguments, naming the modes, and the
//! usage text.
use vstd::prelude::*;
use crate::mapping::{ScaleMode, mode_from_name};
use crate::text::{eq_ignoring_case, folded_code, str_eq};

verus! {

/// What the program is asked to do.
#[derive(Clone, Copy, Debug, PartialEq, Eq, Structural)]
pub enum Command {
    /// Print the usage text.
    Usage,
    /// Print the program's name and version.
    Version,
    /// Start the daemon in the given mode, or in one the user picks.
    Start(Option<ScaleMode>),
    /// Stop the daemon.
    Stop,
    /// Report whether the daemon runs.
    Status,
    /// Run in the foreground in the given mode, or in one the user picks.
    Run(Option<ScaleMode>),
    /// Run as the daemon (the process that `Start` launches).
    Daemon(ScaleMode),
    /// The mode argument (the third) names no mode.
    UnknownMode,
    /// The command argument (the second) names no command.
    UnknownCommand,
}

/// The mode a mode argument selects, as `start` and `run` read it.
pub open spec fn mode_choice(args: Seq<Seq<char>>) -> Option<Option<ScaleMode>> {
    if args.len() >= 3 {
        match mode_from_name(args[2]) {
            Some(m) => Some(Some(m)),
            None => None,
        }
    } else {
        Some(None)
    }
}

/// The command that the arguments `args` (the program's name first) ask for.
pub open spec fn command_for(args: Seq<Seq<char>>) -> Command {
    if args.len() >= 2 && args[1] == seq!['-', '-', 'd', 'a', 'e', 'm', 'o', 'n'] {
        Command::Daemon(
            if args.len() >= 3 {
                match mode_from_name(args[2]) {
                    Some(m) => m,
                    None => ScaleMode::Pentatonic,
                }
            } else {
                ScaleMode::Pentatonic
            },
        )
    } else if args.len() < 2 {
        Command::Usage
    } else if args[1] == seq!['-', 'h'] || args[1] == seq!['-', '-', 'h', 'e', 'l', 'p'] {
        Command::Usage
    } else if args[1] == seq!['-', '-', 'v', 'e', 'r', 's', 'i', 'o', 'n'] || args[1] == seq![
        '-',
        'v',
    ] {
        Command::Version
    } else if args[1] == seq!['s', 't', 'a', 'r', 't'] {
        match mode_choice(args) {
            Some(m) => Command::Start(m),
            None => Command::UnknownMode,
        }
    } else if args[1] == seq!['s', 't', 'o', 'p'] {
        Command::Stop
    } else if args[1] == seq!['s', 't', 'a', 't', 'u', 's'] {
        Command::Status
    } else if args[1] == seq!['r', 'u', 'n'] {
        match mode_choice(args) {
            Some(m) => Command::Run(m),
            None => Command::UnknownMode,
        }
    } else {
        Command::UnknownCommand
    }
}

/// The texts of the arguments.
pub open spec fn arg_texts(args: Seq<String>) -> Seq<Seq<char>> {
    args.map_values(|a: String| a@)
}

/// Reads a mode name, as `ScaleMode::from_str` does.
pub fn parse_mode(s: &str) -> (m: Option<ScaleMode>)
    ensures
        m == mode_from_name(s@),
{
    ScaleMode::from_str(s)
}

/// The mode argument of `start` and `run`: `Some(None)` when there is none,
/// `None` when it names no mode.
fn parse_mode_arg(args: &Vec<String>) -> (m: Option<Option<ScaleMode>>)
    ensures
        m == mode_choice(arg_texts(args@)),
{
    if args.len() >= 3 {
        match parse_mode(args[2].as_str()) {
            Some(m) => Some(Some(m)),
            None => None,
        }
    } else {
        Some(None)
    }
}

/// Reads the command line; `args[0]` is the program's name.
pub fn parse_args(args: &Vec<String>) -> (c: Command)
    ensures
        c == command_for(arg_texts(args@)),
{
    let ghost a = arg_texts(args@);
    assert(a.len() == args@.len());
    assert(forall|i: int| 0 <= i < args@.len() ==> #[trigger] a[i] == args@[i]@);
    if args.len() >= 2 && str_eq(args[1].as_str(), &['-', '-', 'd', 'a', 'e', 'm', 'o', 'n']) {
        let mode = if args.len() >= 3 {
            match parse_mode(args[2].as_str()) {
                Some(m) => m,
                None => ScaleMode::Pentatonic,
            }
        } else {
            ScaleMode::Pentatonic
        };
        return Command::Daemon(mode);
    }
    if args.len() < 2 {
        return Command::Usage;
    }
    let cmd = args[1].as_str();
    if str_eq(cmd, &['-', 'h']) || str_eq(cmd, &['-', '-', 'h', 'e', 'l', 'p']) {
        Command::Usage
    } else if str_eq(cmd, &['-', '-', 'v', 'e', 'r', 's', 'i', 'o', 'n']) || str_eq(
        cmd,
        &['-', 'v'],
    ) {
        Command::Version
    } else if str_eq(cmd, &['s', 't', 'a', 'r', 't']) {
        match parse_mode_arg(args) {
            Some(m) => Command::Start(m),
            None => Command::UnknownMode,
        }
    } else if str_eq(cmd, &['s', 't', 'o', 'p']) {
        Command::Stop
    } else if str_eq(cmd, &['s', 't', 'a', 't', 'u', 's']) {
        Command::Status
    } else if str_eq(cmd, &['r', 'u', 'n']) {
        match parse_mode_arg(args) {
            Some(m) => Command::Run(m),
            None => Command::UnknownMode,
        }
    } else {
        Command::UnknownCommand
    }
}

impl Command {
    /// The process's exit status once the command is done: failure for an
    /// argument that names no command or no mode.
    pub fn exit_code(&self) -> (code: i32)
        ensures
            code == (if *self == Command::UnknownMode || *self == Command::UnknownCommand {
                1i32
            } else {
                0i32
            }),
    {
        match self {
            Command::UnknownMode | Command::UnknownCommand => 1,
            _ => 0,
        }
    }
}

/// The spelling of `mode` that the command line reads and the mode file holds.
pub open spec fn mode_name_text(mode: ScaleMode) -> Seq<char> {
    match mode {
        ScaleMode::Pentatonic => seq!['p', 'e', 'n', 't', 'a', 't', 'o', 'n', 'i', 'c'],
        ScaleMode::Lydian => seq!['l', 'y', 'd', 'i', 'a', 'n'],
    }
}

/// The name of `mode`.
pub fn mode_name(mode: ScaleMode) -> (s: &'static str)
    ensures
        s@ == mode_name_text(mode),
{
    proof {
        reveal_strlit("pentatonic");
        reveal_strlit("lydian");
    }
    match mode {
        ScaleMode::Pentatonic => "pentatonic",
        ScaleMode::Lydian => "lydian",
    }
}

/// The notes of `mode`'s scale, as the status report shows them.
pub open spec fn mode_scale_text(mode: ScaleMode) -> Seq<char> {
    match mode {
        ScaleMode::Pentatonic => "C D E G A"@,
        ScaleMode::Lydian => "C D E F# G A B"@,
    }
}

/// The notes of `mode`'s scale.
pub fn mode_scale(mode: ScaleMode) -> (s: &'static str)
    ensures
        s@ == mode_scale_text(mode),
{
    match mode {
        ScaleMode::Pentatonic => "C D E G A",
        ScaleMode::Lydian => "C D E F# G A B",
    }
}

/// The mode the user picked from the menu, whose first entry is pentatonic
/// and second lydian; anything else is pentatonic.
pub fn mode_from_selection(selection: usize) -> (m: ScaleMode)
    ensures
        m == (if selection == 1 {
            ScaleMode::Lydian
        } else {
            ScaleMode::Pentatonic
        }),
{
    match selection {
        0 => ScaleMode::Pentatonic,
        1 => ScaleMode::Lydian,
        _ => ScaleMode::Pentatonic,
    }
}

/// The line that `--version` prints: the program's name and version.
pub fn version_line() -> (line: &'static str)
    ensures
        line@ == "keystream 0.1.0"@,
{
    "keystream 0.1.0"
}

/// The banner that heads every report.
pub open spec fn header_text() -> Seq<Seq<char>> {
    seq![""@, "KEYSTREAM 0.1"@, "--------------"@, ""@]
}

/// The usage text, banner included, one entry per line.
pub open spec fn usage_text() -> Seq<Seq<char>> {
    header_text() + seq![
        "usage: keystream <command> [mode]"@,
        ""@,
        "commands:"@,
        "  start [mode]  initiate daemon"@,
        "  stop          terminate daemon"@,
        "  status        query state"@,
        "  run [mode]    foreground mode"@,
        ""@,
        "modes:"@,
        "  pentatonic    C D E G A (default)"@,
        "  lydian        C D E F# G A B"@,
        ""@,
    ]
}

/// The texts of some lines.
pub open spec fn line_texts(lines: Seq<&'static str>) -> Seq<Seq<char>> {
    lines.map_values(|l: &'static str| l@)
}

/// The banner's lines.
pub fn header_lines() -> (lines: Vec<&'static str>)
    ensures
        line_texts(lines@) == header_text(),
{
    let lines = vec!["", "KEYSTREAM 0.1", "--------------", ""];
    assert(line_texts(lines@) =~= header_text());
    lines
}

/// The usage text's lines.
pub fn usage_lines() -> (lines: Vec<&'static str>)
    ensures
        line_texts(lines@) == usage_text(),
{
    let lines = vec![
        "",
        "KEYSTREAM 0.1",
        "--------------",
        "",
        "usage: keystream <command> [mode]",
        "",
        "commands:",
        "  start [mode]  initiate daemon",
        "  stop          terminate daemon",
        "  status        query state",
        "  run [mode]    foreground mode",
        "",
        "modes:",
        "  pentatonic    C D E G A (default)",
        "  lydian        C D E F# G A B",
        "",
    ];
    assert(line_texts(lines@) =~= usage_text());
    lines
}

/// The name of a mode reads back as that mode: the daemon that `start`
/// launches with `--daemon <name>` plays the mode it was asked for.
pub proof fn mode_name_reads_back(mode: ScaleMode)
    ensures
        mode_from_name(mode_name_text(mode)) == Some(mode),
{
}

/// Pentatonic is the default mode: the daemon plays it when its mode
/// argument is missing or names no mode.
pub proof fn pentatonic_is_the_default(args: Seq<Seq<char>>)
    requires
        args.len() >= 2,
        args[1] == seq!['-', '-', 'd', 'a', 'e', 'm', 'o', 'n'],
        args.len() < 3 || mode_from_name(args[2]) is None,
    ensures
        command_for(args) == Command::Daemon(ScaleMode::Pentatonic),
{
}

/// The words of the command line that select what to do.
pub open spec fn word_run() -> Seq<char> {
    seq!['r', 'u', 'n']
}

pub open spec fn word_start() -> Seq<char> {
    seq!['s', 't', 'a', 'r', 't']
}

pub open spec fn word_daemon() -> Seq<char> {
    seq!['-', '-', 'd', 'a', 'e', 'm', 'o', 'n']
}

/// `start`, `run` and `--daemon` carry the mode that their mode argument
/// names; in particular the mode's own name selects it.
pub proof fn commands_carry_the_named_mode(args: Seq<Seq<char>>, m: ScaleMode)
    requires
        args.len() >= 3,
        mode_from_name(args[2]) == Some(m),
    ensures
        args[1] == word_run() ==> command_for(args) == Command::Run(Some(m)),
        args[1] == word_start() ==> command_for(args) == Command::Start(Some(m)),
        args[1] == word_daemon() ==> command_for(args) == Command::Daemon(m),
{
}

/// The daemon launched as `--daemon <name of m>` plays `m`, and `start` and
/// `run` given that name ask for `m`.
pub proof fn mode_names_select_their_mode(args: Seq<Seq<char>>, m: ScaleMode)
    requires
        args.len() >= 3,
        args[2] == mode_name_text(m),
    ensures
        args[1] == word_daemon() ==> command_for(args) == Command::Daemon(m),
        args[1] == word_run() ==> command_for(args) == Command::Run(Some(m)),
        args[1] == word_start() ==> command_for(args) == Command::Start(Some(m)),
{
    mode_name_reads_back(m);
    commands_carry_the_named_mode(args, m);
}

/// `start` and `run` without a mode argument let the user pick, and with
/// one that names no mode they fail.
pub proof fn mode_argument_missing_or_unknown(args: Seq<Seq<char>>)
    requires
        args.len() >= 2,
        args[1] == word_run() || args[1] == word_start(),
    ensures
        args.len() == 2 ==> command_for(args) == (if args[1] == word_run() {
            Command::Run(None)
        } else {
            Command::Start(None)
        }),
        args.len() >= 3 && mode_from_name(args[2]) is None ==> command_for(args)
            == Command::UnknownMode,
{
}

/// Every spelling that the help lists, in any letter case, selects its
/// mode: "pentatonic", "penta", "p" select pentatonic and "lydian", "lyd",
/// "l" select lydian.
pub proof fn mode_spellings(s: Seq<char>)
    ensures
        mode_name_text(ScaleMode::Pentatonic) == seq!['p', 'e', 'n', 't', 'a', 't', 'o', 'n', 'i', 'c'],
        mode_name_text(ScaleMode::Lydian) == seq!['l', 'y', 'd', 'i', 'a', 'n'],
        mode_from_name(seq!['p', 'e', 'n', 't', 'a', 't', 'o', 'n', 'i', 'c']) == Some(ScaleMode::Pentatonic),
        mode_from_name(seq!['P', 'E', 'N', 'T', 'A']) == Some(ScaleMode::Pentatonic),
        mode_from_name(seq!['p']) == Some(ScaleMode::Pentatonic),
        mode_from_name(seq!['l', 'y', 'd', 'i', 'a', 'n']) == Some(ScaleMode::Lydian),
        mode_from_name(seq!['L', 'y', 'D']) == Some(ScaleMode::Lydian),
        mode_from_name(seq!['l']) == Some(ScaleMode::Lydian),
        s.len() == 0 ==> mode_from_name(s) is None,
{
    assert(folded_code(seq!['l'][0]) != seq!['p'][0] as u32);
    assert(!eq_ignoring_case(seq!['l'], seq!['p']));
}

/// The fixed words of the command line: with no command the usage is
/// shown, "-h" and "--help" show it too, "--version" and "-v" show the
/// version, "stop" and "status" stop and query the daemon whatever follows
/// them, and any word that is none of the commands is unknown.
pub proof fn command_words(args: Seq<Seq<char>>)
    ensures
        args.len() < 2 ==> command_for(args) == Command::Usage,
        args.len() >= 2 && (args[1] == seq!['-', 'h'] || args[1] == seq!['-', '-', 'h', 'e', 'l', 'p'])
            ==> command_for(args) == Command::Usage,
        args.len() >= 2 && (args[1] == seq!['-', '-', 'v', 'e', 'r', 's', 'i', 'o', 'n'] || args[1]
            == seq!['-', 'v']) ==> command_for(args) == Command::Version,
        args.len() >= 2 && args[1] == seq!['s', 't', 'o', 'p'] ==> command_for(args) == Command::Stop,
        args.len() >= 2 && args[1] == seq!['s', 't', 'a', 't', 'u', 's'] ==> command_for(args)
            == Command::Status,
        args.len() >= 2 && args[1] != word_daemon() && args[1] != seq!['-', 'h'] && args[1] != seq![
            '-',
            '-',
            'h',
            'e',
            'l',
            'p',
        ] && args[1] != seq!['-', '-', 'v', 'e', 'r', 's', 'i', 'o', 'n'] && args[1] != seq!['-', 'v']
            && args[1] != word_start() && args[1] != seq!['s', 't', 'o', 'p'] && args[1] != seq![
            's',
            't',
            'a',
            't',
            'u',
            's',
        ] && args[1] != word_run() ==> command_for(args) == Command::UnknownCommand,
{
}

} // verus!
