//! skry: a deterministic context assembler for language models.
//!
//! The library holds the logic of the tool: configuration defaults and
//! lookups, intent parsing, context assembly under a token budget, content
//! pruning, and the standby daemon's state machine.
pub mod assembly;
pub mod budget;
pub mod config;
pub mod lsp;
pub mod pipeline;
pub mod pruning;
pub mod signatures;
pub mod standby;
pub mod text;

pub use config::Config;
