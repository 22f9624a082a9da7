//! Command-line front end of dbmint: the grammar of its arguments, which
//! subcommand a name selects, and what the `gen-lib` subcommand announces
//! for the schema file it was given.

pub mod cli;
pub mod grammar;
