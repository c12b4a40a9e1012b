use skry::lsp::{command_words, split_command, LspError};

#[test]
fn split_command_separates_program_and_arguments() {
    let (program, args) = split_command("typescript-language-server --stdio").unwrap();
    assert_eq!(program, "typescript-language-server");
    assert_eq!(args, vec!["--stdio".to_string()]);

    let (program, args) = split_command("rust-analyzer").unwrap();
    assert_eq!(program, "rust-analyzer");
    assert!(args.is_empty());

    let (program, args) = split_command("  clangd\t--log=verbose \n -j 4 ").unwrap();
    assert_eq!(program, "clangd");
    assert_eq!(args, vec!["--log=verbose", "-j", "4"]);
}

#[test]
fn split_command_rejects_empty_commands() {
    assert_eq!(split_command("").unwrap_err(), LspError::InvalidCommand);
    assert_eq!(split_command(" \t\u{3000}\n").unwrap_err(), LspError::InvalidCommand);
    assert_eq!(LspError::InvalidCommand.message(), "Invalid LSP command");
}

#[test]
fn command_words_match_split_whitespace() {
    for s in ["", "a", " a b ", "x\u{a0}y\u{2028}z", "pyright-langserver --stdio  --x"] {
        let expected: Vec<String> = s.split_whitespace().map(|w| w.to_string()).collect();
        assert_eq!(command_words(s), expected);
    }
}
