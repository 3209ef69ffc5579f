//! Scaffolding of Solana programs: the template files of a new program, its
//! manifest, the merge of a program into an existing workspace, and the plans
//! of filesystem steps (with their rollback) that create them.

pub mod cli;
pub mod error;
pub mod manifest;
pub mod ops;
pub mod resources;
pub mod version;
