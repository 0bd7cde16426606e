//! The items most callers need.

pub use crate::asset::FusabiScript;
pub use crate::loader::{compiled_chunk, FusabiLoader, FusabiLoaderError, LoadStep};
pub use crate::runner::{PassEvent, PassOutcome, PassStep, RunScript, ScriptAssets};
