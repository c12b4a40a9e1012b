# skry

A deterministic context assembler for language models. Given an intent
(a symbol in a file, or a search), it resolves an entry point, walks the
dependency graph and stitches the retrieved snippets into one prompt that
respects a token budget.

Layout:

- `src/` — the verified library (Verus):
  - `text.rs` — the character model: white space, trimming, lines, words,
    decimal numerals, UTF-8 length.
  - `config.rs` — configuration, its defaults and language-server lookups.
  - `pipeline.rs` — intent parsing, entry points, traversal, generation plans.
  - `assembly.rs` — pruning and assembly of the context under a budget.
  - `signatures.rs` — pruning that keeps function signatures and drops bodies.
  - `budget.rs`, `pruning.rs` — laws of assembly and pruning.
  - `lsp.rs` — splitting a language-server command into program and arguments.
  - `standby.rs` — the standby daemon's state and query texts.
- `app/` — the command-line program: arguments, configuration files, the
  async runtime, language-server processes and output.
- `tests/` — tests of the library.
