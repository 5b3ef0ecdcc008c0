//! Verified core of a privileged installer and strategy-discovery pipeline
//! for the zapret circumvention toolset: output parsers, the strategy store
//! codec, the configuration patcher, the package resolver and the worker and
//! controller state machines. Process spawning and file I/O live outside.
pub mod ansi;
pub mod codec;
pub mod config;
pub mod distro;
pub mod install;
pub mod pipeline;
pub mod report;
pub mod text;
