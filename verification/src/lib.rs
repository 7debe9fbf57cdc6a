//! Configuration layer of the genesis engine: the on-disk configuration model,
//! its merge and resolution rules, provider compatibility presets, credentials,
//! hooks and profiles.
//!
//! Everything in this crate is pure decision logic over plain values. Reading
//! files, the environment and the OS keyring belongs to the surrounding
//! application, which hands the values it found to the functions here.

pub mod anvil;
pub mod browser;
pub mod budget;
pub mod catalog;
pub mod compact;
pub mod compat;
pub mod config;
pub mod context_window;
pub mod credentials;
pub mod crucible;
pub mod debug_text;
pub mod double;
pub mod env_file;
pub mod file_cache;
pub mod float_bits;
pub mod forge_discovery;
pub mod hooks;
pub mod json;
pub mod keychain;
pub mod laws;
pub mod limits;
pub mod mcp_cred_refs;
pub mod model_aliases;
pub mod numbers;
pub mod plan;
pub mod plugins_config;
pub mod profile;
pub mod quote;
pub mod replica;
pub mod schema;
pub mod table;
pub mod text;
pub mod value;
