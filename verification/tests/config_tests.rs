use skry::config::{default_pruning_strategy, default_token_budget, Config, LspConfig, PruningStrategy};

#[test]
fn test_default_config() {
    let config = Config::default();
    assert_eq!(config.general.token_budget, 4096);
    assert!(matches!(
        config.general.pruning_strategy,
        PruningStrategy::Aggressive
    ));
}

#[test]
fn test_lsp_command_lookup() {
    let config = Config::default();
    assert_eq!(config.get_lsp_command("rs"), Some("rust-analyzer"));
    assert_eq!(config.get_lsp_command("cpp"), Some("clangd"));
}

#[test]
fn default_config_has_typescript_and_nothing_else() {
    let config = Config::default();
    assert_eq!(config.get_lsp_command("ts"), Some("typescript-language-server --stdio"));
    assert_eq!(config.get_lsp_command("py"), None);
    assert_eq!(config.get_lsp_command(""), None);
    assert_eq!(config.get_lsp_command("RS"), None);
}

#[test]
fn defaults_of_the_general_section() {
    assert_eq!(default_token_budget(), 4096);
    assert_eq!(default_pruning_strategy(), PruningStrategy::Aggressive);
}

#[test]
fn load_or_default_prefers_the_loaded_config() {
    let mut lsp = LspConfig::new();
    lsp.set_command("py".to_string(), "pyright".to_string());
    let mut loaded = Config::default();
    loaded.general.token_budget = 10;
    loaded.general.pruning_strategy = PruningStrategy::Full;
    loaded.lsp = lsp;
    let config = Config::load_or_default(Some(loaded));
    assert_eq!(config.general.token_budget, 10);
    assert_eq!(config.general.pruning_strategy, PruningStrategy::Full);
    assert_eq!(config.get_lsp_command("py"), Some("pyright"));
    assert_eq!(config.get_lsp_command("rs"), None);

    let fallback = Config::load_or_default(None);
    assert_eq!(fallback.general.token_budget, 4096);
    assert_eq!(fallback.get_lsp_command("rs"), Some("rust-analyzer"));
}

#[test]
fn set_command_replaces_earlier_command() {
    let mut lsp = LspConfig::new();
    lsp.set_command("rs".to_string(), "a".to_string());
    lsp.set_command("rs".to_string(), "b".to_string());
    let mut config = Config::default();
    config.lsp = lsp;
    assert_eq!(config.get_lsp_command("rs"), Some("b"));
}
