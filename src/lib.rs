//! Identity, event-ingestion and action-result primitives of a storage
//! management engine.

pub mod error;
pub mod ident;
pub mod types;
pub mod udev;
pub mod actions;
pub mod registry;
pub mod devpath;
pub mod cmds;
