# dbmint

Command-line front end of dbmint, a tool for working with DBML schemas.

- `src/grammar.rs`: the grammar of the command line as plain values
  (`dbmint_cli`), its parse through clap (`parse_args`, whose outcome is
  named by `clap_outcome`), and the verified reading of that outcome
  (`interpret`, `parse_cli`): the verbosity count, the subcommand, the schema
  path, or why parsing stopped, with the exit status and output stream that
  go with it.
- `src/cli.rs`: which subcommand a name selects, and the line that `gen-lib`
  announces for its schema file.
- `app/main.rs`: reads the process's arguments, prints and exits.
- `tests/`: tests of the library.
