//! Controlling core of a remote-debugging stub: the execution-control loop,
//! the architecture capability layer, and the mapping from execution
//! events to protocol stop reasons.

pub mod emu;
pub mod event_loop;
pub mod gdb;
pub mod gdb_generic;
pub mod gdb_mips;
pub mod gdb_x86;
pub mod scripted;
