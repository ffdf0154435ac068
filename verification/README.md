# rinode

`rinode` removes files by moving them into a vault on the same filesystem
and brings them back on request. This crate is its verified core, checked
with Verus, and the command-line program around it.

- `src/` is the library. Every function in it carries a contract that Verus
  proves: the lexical path rules, the safety tiers and the confirmation
  ceremony, the exclusion rules, the records kept for removed items, restore
  planning, the dashboard's state machine, the data-directory migration,
  and every text the program prints. Calls into `regex`, `xxhash-rust`,
  `directories` and a few std functions sit behind small trusted wrappers
  whose contracts say what those crates document.
- `app/` is the program: the command line (`clap`), the SQLite database
  (`rusqlite`), the Linux system calls, the clock (`chrono`), the terminal
  dashboard (`ratatui`, `crossterm`) and the TOML configuration files. It does the input and
  output and follows the library's decisions.
- `tests/` runs the library on concrete values.
