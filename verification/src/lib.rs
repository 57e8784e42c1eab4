//! Configuration, validation and launch planning for microVMs driven by libkrun.
//!
//! The library holds what the `krunvm` command line decides: the persisted
//! configuration and its defaults, the networking rules, the text that is
//! shown or handed to the VM, and the plan for starting a VM. The program
//! around it reads and writes files, parses arguments and calls libkrun.

pub mod config;
pub mod host;
pub mod network;
pub mod start;
pub mod text;

pub use network::normalize_optional_string;

