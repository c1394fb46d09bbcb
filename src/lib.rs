//! Named launch configurations for an emulator executable: the records, the
//! rules for debug flags, and the store of records keyed by name.

pub mod answer;
pub mod commands;
pub mod debug_args;
pub mod names;
pub mod record;
pub mod shell;
pub mod error;
pub mod store;
