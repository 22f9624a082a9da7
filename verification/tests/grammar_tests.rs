use dbmint::cli::Subcommand;
use clap::error::ErrorKind;
use dbmint::grammar::{
    dbmint_cli, interpret, parse_args, parse_cli, stop_kind, stop_status, stop_to_stdout, CliStop,
    ClapOutcome, StopKind,
};

fn argv(args: &[&str]) -> Vec<String> {
    args.iter().map(|a| a.to_string()).collect()
}

struct Matched {
    verbose: Option<u8>,
    subcommand: Option<String>,
    dbml_filename: Option<String>,
    read_filename: Option<String>,
}

fn matched(args: &[&str]) -> Matched {
    match parse_args(&argv(args)) {
        ClapOutcome::Matched { verbose, subcommand, dbml_filename, read_filename } => {
            Matched { verbose, subcommand, dbml_filename, read_filename }
        }
        ClapOutcome::Stopped { kind, text } => panic!("clap stopped ({kind:?}): {text}"),
    }
}

fn stopped(args: &[&str]) -> (ErrorKind, String) {
    match parse_args(&argv(args)) {
        ClapOutcome::Stopped { kind, text } => (kind, text),
        ClapOutcome::Matched { .. } => panic!("expected clap to stop on {args:?}"),
    }
}

fn cli_stop(args: &[&str]) -> (StopKind, i32, bool, String) {
    match parse_cli(&argv(args)) {
        Err(CliStop::Clap { kind, status, to_stdout, text }) => (kind, status, to_stdout, text),
        _ => panic!("expected clap to stop on {args:?}"),
    }
}

#[test]
fn grammar_holds_the_cli_definition() {
    let d = dbmint_cli();
    assert_eq!(d.name, "dbmint");
    assert_eq!(d.version, "0.1.0");
    assert_eq!(d.verbose_id, "verbose");
    assert_eq!(d.verbose_short, 'v');
    assert_eq!(d.verbose_help, "1: info, 2: debug, 3: trace");
    assert_eq!(d.gen_lib_name, "gen-lib");
    assert_eq!(
        d.gen_lib_about,
        "Generates a Rust library that creates types given the dbml schema provided"
    );
    assert_eq!(d.dbml_filename_id, "dbml_filename");
    assert_eq!(d.dbml_filename_help, "dbml file in mount");
}

#[test]
fn gen_lib_with_a_path_is_matched() {
    let m = matched(&["dbmint", "gen-lib", "ex000.dbml"]);
    assert_eq!(m.verbose, Some(0));
    assert_eq!(m.subcommand.as_deref(), Some("gen-lib"));
    assert_eq!(m.dbml_filename.as_deref(), Some("ex000.dbml"));
}

#[test]
fn the_misspelt_id_reads_no_path() {
    let m = matched(&["dbmint", "gen-lib", "ex000.dbml"]);
    assert_eq!(m.read_filename, None);
    assert!(matches!(
        parse_cli(&argv(&["dbmint", "gen-lib", "ex000.dbml"])),
        Err(CliStop::PathNotRead)
    ));
    assert!(matches!(
        parse_cli(&argv(&["dbmint", "-vv", "gen-lib", "a.dbml"])),
        Err(CliStop::PathNotRead)
    ));
}

#[test]
fn verbose_flags_are_counted() {
    assert_eq!(matched(&["dbmint", "-v", "gen-lib", "a.dbml"]).verbose, Some(1));
    assert_eq!(matched(&["dbmint", "-vvv", "gen-lib", "a.dbml"]).verbose, Some(3));
    assert_eq!(matched(&["dbmint", "-v", "-vv", "gen-lib", "a.dbml"]).verbose, Some(3));
}

#[test]
fn verbose_count_saturates_at_255() {
    let many = format!("-{}", "v".repeat(300));
    assert_eq!(matched(&["dbmint", &many, "gen-lib", "a.dbml"]).verbose, Some(255));
}

#[test]
fn help_is_answered_on_stdout_with_status_0() {
    let (kind, status, to_stdout, text) = cli_stop(&["dbmint", "--help"]);
    assert_eq!(kind, StopKind::Help);
    assert_eq!(status, 0);
    assert!(to_stdout);
    assert!(text.contains("gen-lib"));
    assert!(text.contains("1: info, 2: debug, 3: trace"));
    let (kind, text) = stopped(&["dbmint", "gen-lib", "--help"]);
    assert_eq!(kind, ErrorKind::DisplayHelp);
    assert!(text.contains("dbml file in mount"));
}

#[test]
fn version_is_answered_on_stdout_with_status_0() {
    let (kind, status, to_stdout, text) = cli_stop(&["dbmint", "--version"]);
    assert_eq!(kind, StopKind::Version);
    assert_eq!(status, 0);
    assert!(to_stdout);
    assert_eq!(text, "dbmint 0.1.0\n");
}

#[test]
fn a_missing_subcommand_is_refused_with_status_2() {
    let (kind, status, to_stdout, _) = cli_stop(&["dbmint"]);
    assert_eq!(kind, StopKind::MissingSubcommand);
    assert_eq!(status, 2);
    assert!(!to_stdout);
    assert_eq!(stopped(&["dbmint", "-v"]).0, ErrorKind::MissingSubcommand);
}

#[test]
fn an_unknown_subcommand_is_refused_with_status_2() {
    let (kind, status, to_stdout, _) = cli_stop(&["dbmint", "export_data", "x.db"]);
    assert_eq!(kind, StopKind::InvalidSubcommand);
    assert_eq!(status, 2);
    assert!(!to_stdout);
}

#[test]
fn a_missing_path_is_refused_with_status_2() {
    let (kind, status, _, _) = cli_stop(&["dbmint", "gen-lib"]);
    assert_eq!(kind, StopKind::MissingRequiredArgument);
    assert_eq!(status, 2);
}

#[test]
fn an_empty_path_is_refused_with_status_2() {
    let (kind, status, _, _) = cli_stop(&["dbmint", "gen-lib", ""]);
    assert_eq!(kind, StopKind::InvalidValue);
    assert_eq!(status, 2);
}

#[test]
fn a_second_path_is_refused_with_status_2() {
    let (kind, status, _, _) = cli_stop(&["dbmint", "gen-lib", "a.dbml", "b.dbml"]);
    assert_eq!(kind, StopKind::UnknownArgument);
    assert_eq!(status, 2);
}

#[test]
fn an_unknown_flag_is_refused_with_status_2() {
    let (kind, status, _, _) = cli_stop(&["dbmint", "--quiet", "gen-lib", "a.dbml"]);
    assert_eq!(kind, StopKind::UnknownArgument);
    assert_eq!(status, 2);
}

#[test]
fn stop_status_and_stream_follow_the_kind() {
    for kind in [StopKind::Help, StopKind::Version] {
        assert_eq!(stop_status(kind), 0);
        assert!(stop_to_stdout(kind));
    }
    for kind in [
        StopKind::HelpOnMissing,
        StopKind::InvalidValue,
        StopKind::UnknownArgument,
        StopKind::InvalidSubcommand,
        StopKind::MissingRequiredArgument,
        StopKind::MissingSubcommand,
        StopKind::Other,
    ] {
        assert_eq!(stop_status(kind), 2);
        assert!(!stop_to_stdout(kind));
    }
}

fn outcome(
    verbose: Option<u8>,
    subcommand: Option<&str>,
    read_filename: Option<&str>,
) -> ClapOutcome {
    ClapOutcome::Matched {
        verbose,
        subcommand: subcommand.map(|s| s.to_string()),
        dbml_filename: read_filename.map(|s| s.to_string()),
        read_filename: read_filename.map(|s| s.to_string()),
    }
}

#[test]
fn interpreting_a_stop() {
    let r = interpret(ClapOutcome::Stopped { kind: ErrorKind::InvalidValue, text: "bad\n".to_string() });
    match r {
        Err(CliStop::Clap { kind, status, to_stdout, text }) => {
            assert_eq!(kind, StopKind::InvalidValue);
            assert_eq!(status, 2);
            assert!(!to_stdout);
            assert_eq!(text, "bad\n");
        }
        _ => panic!("expected a clap stop"),
    }
}

#[test]
fn interpreting_matches_without_a_subcommand() {
    assert!(matches!(interpret(outcome(Some(0), None, None)), Err(CliStop::NoSubcommand)));
}

#[test]
fn interpreting_matches_of_an_undefined_subcommand() {
    match interpret(outcome(Some(0), Some("other"), Some("a"))) {
        Err(CliStop::UnknownSubcommand { name }) => assert_eq!(name, "other"),
        _ => panic!("expected an unknown subcommand"),
    }
}

#[test]
fn interpreting_matches_without_a_read_path_or_count() {
    assert!(matches!(
        interpret(outcome(Some(2), Some("gen-lib"), None)),
        Err(CliStop::PathNotRead)
    ));
    assert!(matches!(
        interpret(outcome(None, Some("gen-lib"), Some("a"))),
        Err(CliStop::MissingCount)
    ));
}

#[test]
fn interpreting_complete_matches() {
    let cli = interpret(outcome(Some(7), Some("gen-lib"), Some("s.dbml"))).ok().unwrap();
    assert_eq!(cli.verbose, 7);
    assert_eq!(cli.subcommand, Subcommand::GenLib);
    assert_eq!(cli.dbml_filename, "s.dbml");
}

#[test]
fn stop_kinds_stand_for_clap_error_kinds() {
    assert_eq!(stop_kind(ErrorKind::DisplayHelp), StopKind::Help);
    assert_eq!(stop_kind(ErrorKind::DisplayVersion), StopKind::Version);
    assert_eq!(
        stop_kind(ErrorKind::DisplayHelpOnMissingArgumentOrSubcommand),
        StopKind::HelpOnMissing
    );
    assert_eq!(stop_kind(ErrorKind::InvalidValue), StopKind::InvalidValue);
    assert_eq!(stop_kind(ErrorKind::UnknownArgument), StopKind::UnknownArgument);
    assert_eq!(stop_kind(ErrorKind::InvalidSubcommand), StopKind::InvalidSubcommand);
    assert_eq!(stop_kind(ErrorKind::MissingRequiredArgument), StopKind::MissingRequiredArgument);
    assert_eq!(stop_kind(ErrorKind::MissingSubcommand), StopKind::MissingSubcommand);
    assert_eq!(stop_kind(ErrorKind::TooManyValues), StopKind::Other);
    assert_eq!(stop_kind(ErrorKind::ArgumentConflict), StopKind::Other);
}
