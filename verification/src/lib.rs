//! Attribute analysis and code-generation planning for the `EnvConfig`
//! derive: parsing of `#[env(...)]`, `#[env_config(...)]` and
//! `#[profile(...)]`, classification of fields, `.env.example` text, and
//! the plan of every generated method: which fields take part, how each is
//! loaded, masked and attributed to its source.

pub mod text;
pub mod expand;
pub mod field;
pub mod loader;
pub mod parse;
