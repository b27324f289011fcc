//! The bootstrap layer of the `wasm-pack` command line tool, with its rules
//! stated as contracts: how a launch is routed, what the crash reporter does
//! on a fault, and how the latest published version of a helper tool is
//! asked from the registry.
//!
//! Nothing in this crate touches the process, the file system or the
//! network. Each component decides from plain values; the program around it
//! reads the environment, performs the actions that these functions name,
//! and hands the outcomes back.

pub mod text;
pub mod dispatch;
pub mod crash;
pub mod install;
