//! A call bridge between a host program and an embedded scripting engine.
//!
//! The host names a script file and one of its exported functions, hands over
//! arguments, and gets the function's result back, whether the function
//! answers at once or through a promise. This crate holds the part of that
//! which decides: which module is served from memory and which is left to the
//! file system ([`module_loader`]), what the entry module says ([`entry`]),
//! how the engine is configured ([`config`]), in which order the engine is
//! booted and a call is carried out under either calling convention
//! ([`runtime`]), where one call's state lives between host and guest
//! ([`slot`]), and what a failure is reported as ([`error`]). The engine
//! itself, and everything that waits on it, stays with the host.
//!
//! [`laws`] states what holds of all this, whatever the host asks and reports.

pub mod config;
pub mod entry;
pub mod error;
pub mod laws;
pub mod module_loader;
pub mod runtime;
pub mod slot;
pub mod specifier;

pub use crate::module_loader::EmbeddedModuleLoader;
pub use crate::runtime::Runtime;
