use keystream::cli::{
    header_lines, mode_from_selection, mode_name, mode_scale, parse_args, parse_mode, usage_lines,
    version_line, Command,
};
use keystream::mapping::ScaleMode;

fn args(list: &[&str]) -> Vec<String> {
    let mut v = vec!["keystream".to_string()];
    v.extend(list.iter().map(|s| s.to_string()));
    v
}

#[test]
fn help_flag_shows_usage() {
    assert_eq!(parse_args(&args(&["--help"])), Command::Usage);
    let text = usage_lines().join("\n");
    assert!(text.contains("KEYSTREAM"), "should show header");
    assert!(text.contains("usage:"), "should show usage line");
    assert!(text.contains("start"), "should list start command");
    assert!(text.contains("stop"), "should list stop command");
    assert!(text.contains("status"), "should list status command");
    assert!(text.contains("run"), "should list run command");
}

#[test]
fn h_flag_shows_usage() {
    assert_eq!(parse_args(&args(&["-h"])), Command::Usage);
    assert!(usage_lines().join("\n").contains("usage:"), "should show usage line");
}

#[test]
fn no_args_shows_usage() {
    assert_eq!(parse_args(&args(&[])), Command::Usage);
    assert_eq!(parse_args(&vec![]), Command::Usage);
}

#[test]
fn unknown_command_exits_nonzero() {
    let c = parse_args(&args(&["nonsense"]));
    assert_eq!(c, Command::UnknownCommand);
    assert_ne!(c.exit_code(), 0, "should exit non-zero");
}

#[test]
fn start_with_invalid_mode_exits_nonzero() {
    let c = parse_args(&args(&["start", "invalid_mode"]));
    assert_eq!(c, Command::UnknownMode);
    assert_ne!(c.exit_code(), 0, "should exit non-zero");
}

#[test]
fn version_flag_shows_version() {
    assert_eq!(parse_args(&args(&["--version"])), Command::Version);
    assert_eq!(Command::Version.exit_code(), 0);
    let line = version_line();
    assert!(line.contains("keystream"), "should contain binary name");
    assert!(line.contains("0.1.0"), "should contain version number");
}

#[test]
fn v_flag_shows_version() {
    assert_eq!(parse_args(&args(&["-v"])), Command::Version);
    assert!(version_line().contains("0.1.0"), "should contain version number");
}

#[test]
fn help_lists_modes() {
    let text = usage_lines().join("\n");
    assert!(text.contains("pentatonic"), "should list pentatonic mode");
    assert!(text.contains("lydian"), "should list lydian mode");
}

#[test]
fn commands_and_modes_are_read() {
    assert_eq!(parse_args(&args(&["status"])), Command::Status);
    assert_eq!(parse_args(&args(&["stop"])), Command::Stop);
    assert_eq!(parse_args(&args(&["start"])), Command::Start(None));
    assert_eq!(parse_args(&args(&["start", "LYD"])), Command::Start(Some(ScaleMode::Lydian)));
    assert_eq!(parse_args(&args(&["run"])), Command::Run(None));
    assert_eq!(parse_args(&args(&["run", "p"])), Command::Run(Some(ScaleMode::Pentatonic)));
    assert_eq!(parse_args(&args(&["run", "x"])), Command::UnknownMode);
    assert_eq!(parse_args(&args(&["Start"])), Command::UnknownCommand);
    assert_eq!(parse_args(&args(&["status", "extra"])), Command::Status);
}

#[test]
fn daemon_flag_defaults_to_pentatonic() {
    assert_eq!(parse_args(&args(&["--daemon"])), Command::Daemon(ScaleMode::Pentatonic));
    assert_eq!(parse_args(&args(&["--daemon", "lydian"])), Command::Daemon(ScaleMode::Lydian));
    assert_eq!(parse_args(&args(&["--daemon", "bogus"])), Command::Daemon(ScaleMode::Pentatonic));
}

#[test]
fn mode_names_and_scales() {
    assert_eq!(mode_name(ScaleMode::Pentatonic), "pentatonic");
    assert_eq!(mode_name(ScaleMode::Lydian), "lydian");
    assert_eq!(mode_scale(ScaleMode::Pentatonic), "C D E G A");
    assert_eq!(mode_scale(ScaleMode::Lydian), "C D E F# G A B");
    for m in [ScaleMode::Pentatonic, ScaleMode::Lydian] {
        assert_eq!(parse_mode(mode_name(m)), Some(m));
    }
}

#[test]
fn menu_selection_picks_mode() {
    assert_eq!(mode_from_selection(0), ScaleMode::Pentatonic);
    assert_eq!(mode_from_selection(1), ScaleMode::Lydian);
    assert_eq!(mode_from_selection(7), ScaleMode::Pentatonic);
}

#[test]
fn header_is_the_first_lines_of_usage() {
    let h = header_lines();
    assert_eq!(h, vec!["", "KEYSTREAM 0.1", "--------------", ""]);
    assert_eq!(&usage_lines()[..4], &h[..]);
    assert_eq!(usage_lines().len(), 16);
}
