use vstd::prelude::*;

use clap::error::ErrorKind;

use crate::cli::{subcommand_for, subcommand_name, Subcommand};

verus! {

#[verifier::external_type_specification]
#[verifier::external_body]
pub struct ExClapCommand(clap::Command);

#[verifier::external_type_specification]
#[verifier::external_body]
pub struct ExClapArg(clap::Arg);

#[verifier::external_type_specification]
#[verifier::external_body]
pub struct ExClapArgMatches(clap::ArgMatches);

#[verifier::external_type_specification]
pub struct ExClapErrorKind(clap::error::ErrorKind);

/// The grammar of dbmint's command line, as plain values: a counting flag,
/// and one required subcommand that takes one required path.
pub struct CliDef {
    /// Name of the program.
    pub name: &'static str,
    /// Version the program reports.
    pub version: &'static str,
    /// Id of the counting flag.
    pub verbose_id: &'static str,
    /// Short form of the counting flag.
    pub verbose_short: char,
    /// Help text of the counting flag.
    pub verbose_help: &'static str,
    /// Name of the subcommand.
    pub gen_lib_name: &'static str,
    /// Help text of the subcommand.
    pub gen_lib_about: &'static str,
    /// Id (and value name) of the subcommand's schema path.
    pub dbml_filename_id: &'static str,
    /// Help text of the schema path.
    pub dbml_filename_help: &'static str,
}

/// A `CliDef` with its texts as sequences of characters.
pub struct CliDefView {
    pub name: Seq<char>,
    pub version: Seq<char>,
    pub verbose_id: Seq<char>,
    pub verbose_short: char,
    pub verbose_help: Seq<char>,
    pub gen_lib_name: Seq<char>,
    pub gen_lib_about: Seq<char>,
    pub dbml_filename_id: Seq<char>,
    pub dbml_filename_help: Seq<char>,
}

impl View for CliDef {
    type V = CliDefView;

    open spec fn view(&self) -> CliDefView {
        CliDefView {
            name: self.name@,
            version: self.version@,
            verbose_id: self.verbose_id@,
            verbose_short: self.verbose_short,
            verbose_help: self.verbose_help@,
            gen_lib_name: self.gen_lib_name@,
            gen_lib_about: self.gen_lib_about@,
            dbml_filename_id: self.dbml_filename_id@,
            dbml_filename_help: self.dbml_filename_help@,
        }
    }
}

/// dbmint's grammar.
pub open spec fn dbmint_grammar() -> CliDefView {
    CliDefView {
        name: "dbmint"@,
        version: "0.1.0"@,
        verbose_id: "verbose"@,
        verbose_short: 'v',
        verbose_help: "1: info, 2: debug, 3: trace"@,
        gen_lib_name: subcommand_name(Subcommand::GenLib),
        gen_lib_about: "Generates a Rust library that creates types given the dbml schema provided"@,
        dbml_filename_id: "dbml_filename"@,
        dbml_filename_help: "dbml file in mount"@,
    }
}

/// The id under which the `gen-lib` step reads its schema path.
pub open spec fn gen_lib_read_id() -> Seq<char> {
    "dbmt_filename"@
}

/// Builds dbmint's grammar.
pub fn dbmint_cli() -> (def: CliDef)
    ensures
        def@ == dbmint_grammar(),
{
    CliDef {
        name: "dbmint",
        version: "0.1.0",
        verbose_id: "verbose",
        verbose_short: 'v',
        verbose_help: "1: info, 2: debug, 3: trace",
        gen_lib_name: Subcommand::GenLib.name(),
        gen_lib_about: "Generates a Rust library that creates types given the dbml schema provided",
        dbml_filename_id: "dbml_filename",
        dbml_filename_help: "dbml file in mount",
    }
}

/// Why clap stopped instead of handing back matches.
#[derive(PartialEq, Eq, Structural, Clone, Copy, Debug)]
pub enum StopKind {
    /// `--help` or `-h` was given: the help text is the answer.
    Help,
    /// `--version` or `-V` was given: the version is the answer.
    Version,
    /// Help shown in place of an argument or subcommand that is missing.
    HelpOnMissing,
    /// A value that the argument's parser refused (an empty path, say).
    InvalidValue,
    /// An argument that the grammar does not define.
    UnknownArgument,
    /// A subcommand that the grammar does not define.
    InvalidSubcommand,
    /// A required argument that was not given.
    MissingRequiredArgument,
    /// The required subcommand was not given.
    MissingSubcommand,
    /// Any other refusal.
    Other,
}

/// What clap makes of a command line, as plain values.
pub enum ClapOutcome {
    /// clap accepted the command line. `verbose` is the count of the counting
    /// flag, `subcommand` the subcommand's name, `dbml_filename` the path the
    /// subcommand holds under the grammar's id, and `read_filename` what it
    /// holds under the id that the `gen-lib` step reads.
    Matched {
        verbose: Option<u8>,
        subcommand: Option<String>,
        dbml_filename: Option<String>,
        read_filename: Option<String>,
    },
    /// clap stopped, of kind `kind`, with the text `text` (its `Display`).
    Stopped { kind: ErrorKind, text: String },
}

/// A `ClapOutcome` with its texts as sequences of characters.
pub enum ClapOutcomeView {
    Matched {
        verbose: Option<u8>,
        subcommand: Option<Seq<char>>,
        dbml_filename: Option<Seq<char>>,
        read_filename: Option<Seq<char>>,
    },
    Stopped { kind: ErrorKind, text: Seq<char> },
}

/// The characters of an optional text.
pub open spec fn opt_text(s: Option<String>) -> Option<Seq<char>> {
    match s {
        Some(s) => Some(s@),
        None => None,
    }
}

impl View for ClapOutcome {
    type V = ClapOutcomeView;

    open spec fn view(&self) -> ClapOutcomeView {
        match self {
            ClapOutcome::Matched { verbose, subcommand, dbml_filename, read_filename } => {
                ClapOutcomeView::Matched {
                    verbose: *verbose,
                    subcommand: opt_text(*subcommand),
                    dbml_filename: opt_text(*dbml_filename),
                    read_filename: opt_text(*read_filename),
                }
            },
            ClapOutcome::Stopped { kind, text } => ClapOutcomeView::Stopped { kind: *kind, text: text@ },
        }
    }
}

/// The characters of each argument of a command line.
pub open spec fn args_text(args: Seq<String>) -> Seq<Seq<char>> {
    args.map_values(|a: String| a@)
}

/// What clap's `Command::try_get_matches_from` makes of the command line
/// `args` under the command built from `grammar`, with the subcommand's value
/// also read under the id `read_id`.
pub uninterp spec fn clap_outcome(
    grammar: CliDefView,
    read_id: Seq<char>,
    args: Seq<Seq<char>>,
) -> ClapOutcomeView;

/// Builds clap's flag `id` (short form `short`) that counts how often it is
/// given: `Arg::new(id).help(help).short(short).action(ArgAction::Count)`.
/// `Arg::short` asserts that `short` is not `-`.
#[verifier::external_body]
fn clap_count_flag(id: &'static str, short: char, help: &'static str) -> clap::Arg
    requires
        short != '-',
{
    clap::Arg::new(id).help(help).short(short).action(clap::ArgAction::Count)
}

/// Builds clap's required positional path `id`, spelled out as clap's
/// `arg!([id] help).required(true).value_parser(value_parser!(PathBuf))`
/// expands.
#[verifier::external_body]
fn clap_required_path(id: &'static str, help: &'static str) -> clap::Arg {
    clap::Arg::new(id)
        .value_name(id)
        .action(clap::ArgAction::Set)
        .help(help)
        .required(true)
        .value_parser(clap::builder::ValueParser::path_buf())
}

/// Builds clap's subcommand `name` with description `about` and argument
/// `arg`: `Command::new(name).about(about).arg(arg)`.
#[verifier::external_body]
fn clap_subcommand(name: &'static str, about: &'static str, arg: clap::Arg) -> clap::Command {
    clap::Command::new(name).about(about).arg(arg)
}

/// Builds clap's top-level command `name` at `version`, with flag `flag` and
/// a required subcommand `sub`: `Command::new(name).version(version)
/// .arg(flag).subcommand(sub).subcommand_required(true)`.
#[verifier::external_body]
fn clap_command(
    name: &'static str,
    version: &'static str,
    flag: clap::Arg,
    sub: clap::Command,
) -> clap::Command {
    clap::Command::new(name).version(version).arg(flag).subcommand(sub).subcommand_required(true)
}

/// clap's `ArgMatches::try_get_one::<PathBuf>(id)`, the path turned into a
/// `String` by `to_string_lossy`; `None` where clap reports an error (an id
/// the matches do not define) or holds no value under `id`.
#[verifier::external_body]
fn clap_path(matches: &clap::ArgMatches, id: &'static str) -> Option<String> {
    match matches.try_get_one::<std::path::PathBuf>(id) {
        Ok(Some(path)) => Some(path.to_string_lossy().into_owned()),
        _ => None,
    }
}

/// Turns clap's matches into plain values: the count under `count_id`
/// (`try_get_one::<u8>`), and, from `subcommand()`, the subcommand's name and
/// its paths under `path_id` and `read_id`.
#[verifier::external_body]
fn clap_matched(
    matches: &clap::ArgMatches,
    count_id: &'static str,
    path_id: &'static str,
    read_id: &'static str,
) -> ClapOutcome {
    let verbose = match matches.try_get_one::<u8>(count_id) {
        Ok(Some(count)) => Some(*count),
        _ => None,
    };
    match matches.subcommand() {
        Some((name, sub)) => ClapOutcome::Matched {
            verbose,
            subcommand: Some(name.to_string()),
            dbml_filename: clap_path(sub, path_id),
            read_filename: clap_path(sub, read_id),
        },
        None => ClapOutcome::Matched { verbose, subcommand: None, dbml_filename: None, read_filename: None },
    }
}

/// Runs clap's `Command::try_get_matches_from` on the command line `args`
/// (the program's name first) under the command built from `def`, and turns
/// the outcome into plain values; a refusal becomes its kind and the text of
/// its `Display`. Its contract names the outcome: the same grammar, read id
/// and arguments give the same outcome. Which outcome that is, is clap's
/// parsing and is left unsaid. `def` is held to dbmint's grammar, for which
/// clap's checks of the command it builds hold.
#[verifier::external_body]
fn clap_parse(def: &CliDef, read_id: &'static str, args: &Vec<String>) -> (out: ClapOutcome)
    requires
        def@ == dbmint_grammar(),
    ensures
        out@ == clap_outcome(def@, read_id@, args_text(args@)),
{
    let flag = clap_count_flag(def.verbose_id, def.verbose_short, def.verbose_help);
    let path = clap_required_path(def.dbml_filename_id, def.dbml_filename_help);
    let sub = clap_subcommand(def.gen_lib_name, def.gen_lib_about, path);
    let cmd = clap_command(def.name, def.version, flag, sub);
    match cmd.try_get_matches_from(args.iter()) {
        Ok(matches) => clap_matched(&matches, def.verbose_id, def.dbml_filename_id, read_id),
        Err(err) => ClapOutcome::Stopped { kind: err.kind(), text: err.to_string() },
    }
}

/// What clap makes of the command line `args` under dbmint's grammar.
pub open spec fn spec_parse_args(args: Seq<Seq<char>>) -> ClapOutcomeView {
    clap_outcome(dbmint_grammar(), gen_lib_read_id(), args)
}

/// Parses the command line `args` (the program's name first) by dbmint's
/// grammar through clap.
pub fn parse_args(args: &Vec<String>) -> (out: ClapOutcome)
    ensures
        out@ == spec_parse_args(args_text(args@)),
        out@ == clap_outcome(dbmint_grammar(), gen_lib_read_id(), args_text(args@)),
{
    let def = dbmint_cli();
    clap_parse(&def, "dbmt_filename", args)
}

/// The `StopKind` that stands for clap's `ErrorKind` `kind`.
pub open spec fn spec_stop_kind(kind: ErrorKind) -> StopKind {
    match kind {
        ErrorKind::DisplayHelp => StopKind::Help,
        ErrorKind::DisplayVersion => StopKind::Version,
        ErrorKind::DisplayHelpOnMissingArgumentOrSubcommand => StopKind::HelpOnMissing,
        ErrorKind::InvalidValue => StopKind::InvalidValue,
        ErrorKind::UnknownArgument => StopKind::UnknownArgument,
        ErrorKind::InvalidSubcommand => StopKind::InvalidSubcommand,
        ErrorKind::MissingRequiredArgument => StopKind::MissingRequiredArgument,
        ErrorKind::MissingSubcommand => StopKind::MissingSubcommand,
        _ => StopKind::Other,
    }
}

/// The `StopKind` that stands for clap's `ErrorKind` `kind`.
pub fn stop_kind(kind: ErrorKind) -> (sk: StopKind)
    ensures
        sk == spec_stop_kind(kind),
{
    match kind {
        ErrorKind::DisplayHelp => StopKind::Help,
        ErrorKind::DisplayVersion => StopKind::Version,
        ErrorKind::DisplayHelpOnMissingArgumentOrSubcommand => StopKind::HelpOnMissing,
        ErrorKind::InvalidValue => StopKind::InvalidValue,
        ErrorKind::UnknownArgument => StopKind::UnknownArgument,
        ErrorKind::InvalidSubcommand => StopKind::InvalidSubcommand,
        ErrorKind::MissingRequiredArgument => StopKind::MissingRequiredArgument,
        ErrorKind::MissingSubcommand => StopKind::MissingSubcommand,
        _ => StopKind::Other,
    }
}

/// The exit status of a stop: 0 when the answer is the help or the version
/// that was asked for, 2 for every refusal (as clap's `Error::exit_code`).
pub open spec fn spec_stop_status(kind: StopKind) -> i32 {
    match kind {
        StopKind::Help | StopKind::Version => 0,
        _ => 2,
    }
}

/// Whether a stop's text goes to standard output (the help or the version
/// that was asked for) rather than to standard error (as clap's `Error::print`).
pub open spec fn spec_stop_to_stdout(kind: StopKind) -> bool {
    kind is Help || kind is Version
}

/// A stop's text goes to standard output exactly when the program then
/// exits with status 0.
pub proof fn lemma_stdout_exactly_on_success(kind: StopKind)
    ensures
        spec_stop_to_stdout(kind) <==> spec_stop_status(kind) == 0,
{
}

/// The exit status of a stop of kind `kind`.
pub fn stop_status(kind: StopKind) -> (status: i32)
    ensures
        status == spec_stop_status(kind),
{
    match kind {
        StopKind::Help | StopKind::Version => 0,
        _ => 2,
    }
}

/// Whether the text of a stop of kind `kind` goes to standard output.
pub fn stop_to_stdout(kind: StopKind) -> (to_stdout: bool)
    ensures
        to_stdout == spec_stop_to_stdout(kind),
{
    match kind {
        StopKind::Help | StopKind::Version => true,
        _ => false,
    }
}

/// What the command line asks for, once its arguments are accepted.
pub struct CliArgs {
    /// How many times the counting flag was given.
    pub verbose: u8,
    /// The subcommand that was given.
    pub subcommand: Subcommand,
    /// The schema path that the `gen-lib` step read.
    pub dbml_filename: String,
}

/// Why the command line led to no `CliArgs`.
pub enum CliStop {
    /// clap stopped: it answered `--help`/`--version` or refused the
    /// arguments. `text` is what clap says, `status` the exit status, and
    /// `to_stdout` whether the text belongs on standard output.
    Clap { kind: StopKind, status: i32, to_stdout: bool, text: String },
    /// clap's matches hold no subcommand.
    NoSubcommand,
    /// clap's matches hold a subcommand that the grammar does not define.
    UnknownSubcommand { name: String },
    /// The `gen-lib` step found no path under the id it reads.
    PathNotRead,
    /// clap's matches hold no count for the counting flag.
    MissingCount,
}

/// `CliArgs` with its path as a sequence of characters.
pub struct CliArgsView {
    pub verbose: u8,
    pub subcommand: Subcommand,
    pub dbml_filename: Seq<char>,
}

/// `CliStop` with its texts as sequences of characters.
pub enum CliStopView {
    Clap { kind: StopKind, status: i32, to_stdout: bool, text: Seq<char> },
    NoSubcommand,
    UnknownSubcommand { name: Seq<char> },
    PathNotRead,
    MissingCount,
}

/// The result of reading a command line, with its texts as sequences of
/// characters.
pub open spec fn cli_result_view(r: Result<CliArgs, CliStop>) -> Result<CliArgsView, CliStopView> {
    match r {
        Ok(a) => Ok(
            CliArgsView { verbose: a.verbose, subcommand: a.subcommand, dbml_filename: a.dbml_filename@ },
        ),
        Err(CliStop::Clap { kind, status, to_stdout, text }) => Err(
            CliStopView::Clap { kind, status, to_stdout, text: text@ },
        ),
        Err(CliStop::NoSubcommand) => Err(CliStopView::NoSubcommand),
        Err(CliStop::UnknownSubcommand { name }) => Err(CliStopView::UnknownSubcommand { name: name@ }),
        Err(CliStop::PathNotRead) => Err(CliStopView::PathNotRead),
        Err(CliStop::MissingCount) => Err(CliStopView::MissingCount),
    }
}

/// What dbmint makes of clap's outcome: a stop of clap carries the status and
/// stream of its kind; accepted matches must name a defined subcommand, hold a
/// path under the id the `gen-lib` step reads, and hold a count.
pub open spec fn spec_interpret(outcome: ClapOutcomeView) -> Result<CliArgsView, CliStopView> {
    match outcome {
        ClapOutcomeView::Stopped { kind, text } => Err(
            CliStopView::Clap {
                kind: spec_stop_kind(kind),
                status: spec_stop_status(spec_stop_kind(kind)),
                to_stdout: spec_stop_to_stdout(spec_stop_kind(kind)),
                text,
            },
        ),
        ClapOutcomeView::Matched { verbose, subcommand, read_filename, .. } => match subcommand {
            None => Err(CliStopView::NoSubcommand),
            Some(name) => match subcommand_for(name) {
                None => Err(CliStopView::UnknownSubcommand { name }),
                Some(sub) => match read_filename {
                    None => Err(CliStopView::PathNotRead),
                    Some(path) => match verbose {
                        None => Err(CliStopView::MissingCount),
                        Some(count) => Ok(
                            CliArgsView { verbose: count, subcommand: sub, dbml_filename: path },
                        ),
                    },
                },
            },
        },
    }
}

/// Reads what the command line asks for out of clap's outcome.
pub fn interpret(outcome: ClapOutcome) -> (r: Result<CliArgs, CliStop>)
    ensures
        cli_result_view(r) == spec_interpret(outcome@),
{
    match outcome {
        ClapOutcome::Stopped { kind, text } => {
            let kind = stop_kind(kind);
            Err(
                CliStop::Clap {
                    kind,
                    status: stop_status(kind),
                    to_stdout: stop_to_stdout(kind),
                    text,
                },
            )
        },
        ClapOutcome::Matched { verbose, subcommand, read_filename, .. } => match subcommand {
            None => Err(CliStop::NoSubcommand),
            Some(name) => match crate::cli::subcommand_from_name(&name) {
                None => Err(CliStop::UnknownSubcommand { name }),
                Some(sub) => match read_filename {
                    None => Err(CliStop::PathNotRead),
                    Some(path) => match verbose {
                        None => Err(CliStop::MissingCount),
                        Some(count) => Ok(
                            CliArgs { verbose: count, subcommand: sub, dbml_filename: path },
                        ),
                    },
                },
            },
        },
    }
}

/// Every command line that dbmint accepts asks for the `gen-lib` subcommand.
pub proof fn lemma_accepted_command_lines_name_gen_lib(args: Seq<Seq<char>>)
    ensures
        spec_interpret(spec_parse_args(args)) matches Ok(a) ==> a.subcommand == Subcommand::GenLib,
{
}

/// Every stop of clap reaches the caller with the exit status and stream of
/// its kind, and clap's own text.
pub proof fn lemma_clap_stops_keep_their_kind(outcome: ClapOutcomeView)
    ensures
        outcome matches ClapOutcomeView::Stopped { kind, text } ==> spec_interpret(outcome) == Err::<
            CliArgsView,
            CliStopView,
        >(
            CliStopView::Clap {
                kind: spec_stop_kind(kind),
                status: spec_stop_status(spec_stop_kind(kind)),
                to_stdout: spec_stop_to_stdout(spec_stop_kind(kind)),
                text,
            },
        ),
{
}

/// clap sees the command line exactly as it was given: what dbmint makes of
/// `args` is clap's outcome on `args` itself, with no argument dropped,
/// added or altered, under dbmint's grammar and the id `dbmt_filename`.
pub proof fn lemma_parse_args_takes_args_as_given(args: Seq<Seq<char>>)
    ensures
        spec_parse_args(args) == clap_outcome(dbmint_grammar(), "dbmt_filename"@, args),
{
}

/// Matches that name `gen-lib`, hold a read path and hold a count are
/// accepted with exactly that count (0 included) and that path; a missing
/// count is reported only when the matches hold none.
pub proof fn lemma_complete_matches_are_accepted(
    verbose: Option<u8>,
    name: Seq<char>,
    dbml_filename: Option<Seq<char>>,
    read_filename: Option<Seq<char>>,
)
    ensures
        name == "gen-lib"@ && read_filename is Some && verbose is Some ==> spec_interpret(
            ClapOutcomeView::Matched {
                verbose,
                subcommand: Some(name),
                dbml_filename,
                read_filename,
            },
        ) == Ok::<CliArgsView, CliStopView>(
            CliArgsView {
                verbose: verbose.unwrap(),
                subcommand: Subcommand::GenLib,
                dbml_filename: read_filename.unwrap(),
            },
        ),
        spec_interpret(
            ClapOutcomeView::Matched {
                verbose,
                subcommand: Some(name),
                dbml_filename,
                read_filename,
            },
        ) == Err::<CliArgsView, CliStopView>(CliStopView::MissingCount) ==> verbose is None,
{
}

/// Only clap's `DisplayHelp` becomes a help stop and only `DisplayVersion` a
/// version stop; every kind of clap stop exits with status 0, on standard
/// output, exactly when it is one of those two, and with status 2 otherwise.
pub proof fn lemma_only_help_and_version_succeed(kind: ErrorKind)
    ensures
        (spec_stop_kind(kind) == StopKind::Help) <==> (kind is DisplayHelp),
        (spec_stop_kind(kind) == StopKind::Version) <==> (kind is DisplayVersion),
        (spec_stop_status(spec_stop_kind(kind)) == 0) <==> (kind is DisplayHelp
            || kind is DisplayVersion),
        (kind is DisplayHelp || kind is DisplayVersion) || spec_stop_status(spec_stop_kind(kind))
            == 2,
        spec_stop_to_stdout(spec_stop_kind(kind)) <==> (kind is DisplayHelp
            || kind is DisplayVersion),
{
}

/// Parses the command line `args` (the program's name first) and reads what
/// it asks for.
pub fn parse_cli(args: &Vec<String>) -> (r: Result<CliArgs, CliStop>)
    ensures
        cli_result_view(r) == spec_interpret(spec_parse_args(args_text(args@))),
        cli_result_view(r) == spec_interpret(
            clap_outcome(dbmint_grammar(), gen_lib_read_id(), args_text(args@)),
        ),
{
    interpret(parse_args(args))
}

} // verus!
