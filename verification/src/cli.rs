use vstd::prelude::*;

verus! {

/// The subcommands that the dbmint command line defines.
#[derive(PartialEq, Eq, Structural, Clone, Copy, Debug)]
pub enum Subcommand {
    /// Generates a Rust library that creates types from a DBML schema.
    GenLib,
}

/// The name under which the command line defines subcommand `sub`.
pub open spec fn subcommand_name(sub: Subcommand) -> Seq<char> {
    match sub {
        Subcommand::GenLib => "gen-lib"@,
    }
}

/// The subcommand that a name selects on the command line, if any.
pub open spec fn subcommand_for(name: Seq<char>) -> Option<Subcommand> {
    if name == subcommand_name(Subcommand::GenLib) {
        Some(Subcommand::GenLib)
    } else {
        None
    }
}

impl Subcommand {
    /// The name under which the command line defines this subcommand.
    pub fn name(&self) -> (name: &'static str)
        ensures
            name@ == subcommand_name(*self),
    {
        match self {
            Subcommand::GenLib => "gen-lib",
        }
    }
}

/// A name selects a subcommand exactly when it is that subcommand's name:
/// `gen-lib` selects `GenLib`, and every other name selects nothing.
pub proof fn lemma_only_its_name_selects_a_subcommand(name: Seq<char>)
    ensures
        subcommand_for(name) matches Some(sub) ==> name == subcommand_name(sub),
        (subcommand_for(name) is Some) <==> name == "gen-lib"@,
{
}

/// Every subcommand that the command line defines is selected by its own name.
pub proof fn lemma_name_selects_subcommand(sub: Subcommand)
    ensures
        subcommand_for(subcommand_name(sub)) == Some(sub),
{
}

/// Selects the subcommand named `name`; `None` for a name that the
/// command line does not define.
pub fn subcommand_from_name(name: &String) -> (sub: Option<Subcommand>)
    ensures
        sub == subcommand_for(name@),
{
    let gen_lib = String::from_str(Subcommand::GenLib.name());
    if *name == gen_lib {
        Some(Subcommand::GenLib)
    } else {
        None
    }
}

/// The text that std's `Debug` formatting gives for the path whose characters
/// are `path`.
pub uninterp spec fn path_debug_text(path: Seq<char>) -> Seq<char>;

/// A character that `char::escape_debug` leaves as it is and that needs no
/// quoting in a path: an ASCII letter or digit, `.`, `/`, `-` or `_`.
pub open spec fn is_plain_path_char(c: char) -> bool {
    ('a' <= c && c <= 'z') || ('A' <= c && c <= 'Z') || ('0' <= c && c <= '9') || c == '.' || c
        == '/' || c == '-' || c == '_'
}

/// A path made only of plain characters.
pub open spec fn is_plain_path(path: Seq<char>) -> bool {
    forall|i: int| 0 <= i < path.len() ==> is_plain_path_char(#[trigger] path[i])
}

/// `text` between double quotes.
pub open spec fn quoted(text: Seq<char>) -> Seq<char> {
    seq!['"'] + text + seq!['"']
}

/// Formats the path spelled by `path` with std's `Debug` for `Path`
/// (`format!("{:?}", Path::new(path))`). The contract claims that the result
/// is determined by the path's characters, and that a path of plain
/// characters comes out between double quotes with its characters as they
/// are: std's `Debug` for a path writes `"`, each character through
/// `char::escape_debug` (which leaves these characters unchanged), then `"`.
/// How other characters are escaped is left unsaid.
#[verifier::external_body]
fn path_debug(path: &String) -> (text: String)
    ensures
        text@ == path_debug_text(path@),
        is_plain_path(path@) ==> text@ == quoted(path@),
{
    format!("{:?}", std::path::Path::new(path.as_str()))
}

/// The words that open the announcement of the `gen-lib` subcommand.
pub open spec fn announcement_prefix() -> Seq<char> {
    "OK! We will proceess "@
}

/// The announcement of the `gen-lib` subcommand for a schema path whose
/// debug rendering is `path_text`.
pub fn announcement_for(path_text: &String) -> (msg: String)
    ensures
        msg@ == announcement_prefix() + path_text@,
{
    let mut msg = String::from_str("OK! We will proceess ");
    msg.append(path_text.as_str());
    msg
}

/// The line that the `gen-lib` subcommand prints for the schema file
/// `dbml_filename`: the fixed opening followed by the path as `Debug` shows it.
pub fn gen_lib_announcement(dbml_filename: &String) -> (msg: String)
    ensures
        msg@ == announcement_prefix() + path_debug_text(dbml_filename@),
        is_plain_path(dbml_filename@) ==> msg@ == announcement_prefix() + quoted(dbml_filename@),
{
    let text = path_debug(dbml_filename);
    announcement_for(&text)
}

} // verus!
