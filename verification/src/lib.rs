//! Verified core of an MCP server that wraps the `kagi` command-line client:
//! the construction of every CLI invocation from tool parameters, the
//! privacy and stealth presets, the runner's configuration and the
//! decisions the runner takes around each subprocess.

pub mod account;
pub mod args;
pub mod argv;
pub mod command;
pub mod json;
pub mod laws;
pub mod lines;
pub mod options;
pub mod privacy;
pub mod runner;
pub mod search;
pub mod text;
pub mod tools;
