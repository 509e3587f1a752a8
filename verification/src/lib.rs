//! Launches Python scripts inside an interpreter that is loaded into the
//! current process: where its shared library lives, the order of the calls
//! that start it, the argument vector it is handed, and what the process
//! reports when it is done.

pub mod abi;
pub mod args;
pub mod error;
pub mod launcher;
pub mod orchestrator;
pub mod protocol;
pub mod resolver;
pub mod rewrite;
pub mod runs;
pub mod sequence;
pub mod wide;
