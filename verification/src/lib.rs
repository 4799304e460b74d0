//! A local judge engine: command templates, a content-addressed compile
//! cache, compiler diagnostics, bounded program execution and checker
//! verdicts, with the decisions of each stated as contracts.

pub mod cache;
pub mod checker;
pub mod command;
pub mod compiler;
pub mod config;
pub mod events;
pub mod execution;
pub mod framing;
pub mod installer;
pub mod logger;
pub mod lsp;
pub mod net;
pub mod paths;
pub mod platform;
pub mod provider;
pub mod streaming;
pub mod strmap;
pub mod task;
pub mod text;
pub mod verdict;
