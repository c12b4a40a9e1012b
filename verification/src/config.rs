//! Configuration: the token budget, the pruning strategy and the language
//! servers to start for each file extension, with their defaults.
use vstd::prelude::*;
use vstd::hash_map::StringHashMap;

verus! {

/// Strategy for pruning the content of each retrieved snippet.
#[derive(Clone, Copy, Debug, PartialEq, Eq, Structural)]
pub enum PruningStrategy {
    /// Keep only the lines that declare a function, struct, enum or impl
    Aggressive,
    /// Only include function signatures, not bodies: drop every line that
    /// starts inside a function body
    Bodies,
    /// Include full implementations
    Full,
}

/// General configuration settings.
pub struct GeneralConfig {
    /// Maximum number of tokens to include in the context
    pub token_budget: usize,
    /// Pruning strategy for dependencies
    pub pruning_strategy: PruningStrategy,
}

/// Language-server configuration: a map from file extensions to the
/// command that starts the server for them.
pub struct LspConfig {
    /// Map of file extensions to language-server commands
    pub servers: StringHashMap<String>,
}

/// Main configuration structure.
pub struct Config {
    pub general: GeneralConfig,
    pub lsp: LspConfig,
}

/// The token budget used when the configuration gives none.
pub open spec fn spec_default_token_budget() -> usize {
    4096
}

/// The extensions and server commands used when the configuration gives
/// no `[lsp]` table.
pub open spec fn default_commands() -> Map<Seq<char>, Seq<char>> {
    map![
        "rs"@ => "rust-analyzer"@,
        "cpp"@ => "clangd"@,
        "ts"@ => "typescript-language-server --stdio"@,
    ]
}

impl LspConfig {
    /// The commands of the configuration, by extension.
    pub open spec fn commands(&self) -> Map<Seq<char>, Seq<char>> {
        self.servers@.map_values(|s: String| s@)
    }
}

impl LspConfig {
    /// A configuration that names no language server.
    pub fn new() -> (c: LspConfig)
        ensures
            c.commands() == Map::<Seq<char>, Seq<char>>::empty(),
    {
        let c = LspConfig { servers: StringHashMap::new() };
        assert(c.commands() =~= Map::<Seq<char>, Seq<char>>::empty());
        c
    }

    /// Sets the command that starts the server for `extension`, replacing
    /// any earlier one.
    pub fn set_command(&mut self, extension: String, command: String)
        ensures
            final(self).commands() == old(self).commands().insert(extension@, command@),
    {
        let ghost e = extension@;
        let ghost c = command@;
        self.servers.insert(extension, command);
        assert(self.commands() =~= old(self).commands().insert(e, c));
    }
}

impl GeneralConfig {
    /// Whether this is the default general configuration.
    pub open spec fn is_default(&self) -> bool {
        &&& self.token_budget == spec_default_token_budget()
        &&& self.pruning_strategy == PruningStrategy::Aggressive
    }
}

impl Config {
    /// Whether this is the default configuration.
    pub open spec fn is_default(&self) -> bool {
        &&& self.general.is_default()
        &&& self.lsp.commands() == default_commands()
    }
}

/// The default token budget.
pub fn default_token_budget() -> (b: usize)
    ensures
        b == spec_default_token_budget(),
{
    4096
}

/// The default pruning strategy.
pub fn default_pruning_strategy() -> (s: PruningStrategy)
    ensures
        s == PruningStrategy::Aggressive,
{
    PruningStrategy::Aggressive
}

impl Default for GeneralConfig {
    fn default() -> (c: Self)
        ensures
            c.is_default(),
    {
        GeneralConfig {
            token_budget: default_token_budget(),
            pruning_strategy: default_pruning_strategy(),
        }
    }
}

impl Default for LspConfig {
    fn default() -> (c: Self)
        ensures
            c.commands() == default_commands(),
    {
        let mut servers: StringHashMap<String> = StringHashMap::new();
        servers.insert("rs".to_owned(), "rust-analyzer".to_owned());
        servers.insert("cpp".to_owned(), "clangd".to_owned());
        servers.insert("ts".to_owned(), "typescript-language-server --stdio".to_owned());
        let c = LspConfig { servers };
        assert(c.commands() =~= default_commands());
        c
    }
}

impl Default for Config {
    fn default() -> (c: Self)
        ensures
            c.is_default(),
    {
        Config { general: GeneralConfig::default(), lsp: LspConfig::default() }
    }
}

impl Config {
    /// The configuration that was found, or the default one when none was.
    pub fn load_or_default(found: Option<Config>) -> (c: Config)
        ensures
            match found {
                Some(f) => c == f,
                None => c.is_default(),
            },
    {
        match found {
            Some(f) => f,
            None => Config::default(),
        }
    }

    /// The language-server command for files with the given extension.
    pub fn get_lsp_command(&self, extension: &str) -> (r: Option<&str>)
        ensures
            match r {
                Some(c) => self.lsp.commands().contains_key(extension@) && c@
                    == self.lsp.commands()[extension@],
                None => !self.lsp.commands().contains_key(extension@),
            },
    {
        match self.lsp.servers.get(extension) {
            Some(s) => Some(s.as_str()),
            None => None,
        }
    }
}

} // verus!
