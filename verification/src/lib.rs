//! Build pipeline for console cartridges: compile a cartridge to a binary
//! module, discover the produced artifacts from the compiler's structured
//! output, resolve an external size-optimization tool, and post-process each
//! artifact with it, degrading gracefully when the tool is unavailable.

pub mod artifacts;
pub mod events;
pub mod laws;
pub mod orchestrator;
pub mod prompt;
pub mod register;
pub mod request;
pub mod resolver;
pub mod text;
