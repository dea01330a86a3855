//! Guest-resident harness that lets an external model checker drive a kernel
//! under test: commands arrive as byte buffers, are dispatched to a registry
//! of command handlers, and the return value plus incrementally streamed
//! kernel state are reported back over a port, with a fixed sequence of trap
//! signals marking the points where the checker may inspect the guest.

pub mod codec;
pub mod command;
pub mod commands;
pub mod harness;
pub mod port;
pub mod registry;

pub use command::{Command, DispatchError, Executor};
pub use harness::Harness;
pub use port::{HarnessPort, MemPort, TrapKind};
