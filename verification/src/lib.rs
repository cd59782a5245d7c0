//! A process-control and breakpoint-management engine for a native-code
//! debugger: it models the traced process's register snapshot, the table of
//! planted breakpoints, symbol resolution over the target's debug
//! information, and the command/wait-status state machine that ties operator
//! commands to kernel stop events.

pub mod arch;
pub mod bptable;
pub mod regcache;
pub mod symbols;
pub mod command;
pub mod wait;
pub mod render;
pub mod disasm;
pub mod syscalls;
pub mod tracee;
pub mod session;

pub use arch::ArchConfig;
