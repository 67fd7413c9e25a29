//! Registry and lifecycle planning for locally defined virtual machines.
//!
//! The library keeps the definitions of virtual machines by name, resolves the
//! paths under which their disk images live, and decides which external
//! commands realise each lifecycle operation.  Running those commands and
//! persisting the registry is left to the caller.

pub mod command;
pub mod lifecycle;
pub mod mode;
pub mod path;
pub mod process;
pub mod record;
