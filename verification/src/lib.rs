//! The verified core of a disk imaging tool: how the kernel's coredump
//! setting is read, what the user is told when the program dies, how
//! messages are framed between the parent process and its daemon, how the
//! I/O graph moves and hashes data, and the decisions of the writer.
use vstd::prelude::*;

pub mod bench;
pub mod coredump;
pub mod daemon_error;
pub mod disks;
pub mod escalation;
pub mod framing;
pub mod hashing;
pub mod herder;
pub mod io_graph;
pub mod junction;
pub mod logging;
pub mod styled;
pub mod text;
pub mod time;
pub mod workflow;
pub mod writer;

verus! {

} // verus!
