//! The syscall tracing façade: thin, typed, fallible wrappers around the
//! kernel tracing interface.  Every operation requires an established
//! tracer/tracee relationship and a stopped target; each returns the raw OS
//! error code on failure.  Nothing is promised of the values the kernel
//! hands back — they depend on the traced process — so callers state what
//! holds of every outcome.

use vstd::prelude::*;
use crate::wait::WaitEvent;

verus! {

#[verifier::external_type_specification]
#[verifier::external_body]
pub struct ExUserRegs(libc::user_regs_struct);

/// The full general-purpose register set of the stopped target, with the
/// program counter mirrored as a plain value.  `rip` is authoritative: it is
/// written back over the raw set whenever the snapshot is pushed to the
/// kernel.
#[derive(Clone, Copy)]
pub struct RegSnapshot {
    pub rip: u64,
    pub raw: libc::user_regs_struct,
}

/// Relies on nix::sys::ptrace::read (`PTRACE_PEEKDATA`): reads one word of
/// the target's memory; the value depends on the traced process.
#[verifier::external_body]
pub(crate) fn peek_word(pid: i32, addr: u64) -> (r: Result<u64, i32>) {
    match nix::sys::ptrace::read(nix::unistd::Pid::from_raw(pid), addr as _) {
        Ok(w) => Ok(w as u64),
        Err(e) => Err(e as i32),
    }
}

/// Relies on nix::sys::ptrace::write (`PTRACE_POKEDATA`): writes one word
/// into the target's memory.
#[verifier::external_body]
pub(crate) fn poke_word(pid: i32, addr: u64, word: u64) -> (r: Result<(), i32>) {
    match nix::sys::ptrace::write(nix::unistd::Pid::from_raw(pid), addr as _, word as _) {
        Ok(()) => Ok(()),
        Err(e) => Err(e as i32),
    }
}

/// Relies on nix::sys::ptrace::getregs (`PTRACE_GETREGS`): snapshots the
/// stopped target's register set; the snapshot's `rip` is the raw set's.
#[verifier::external_body]
pub(crate) fn fetch_regs(pid: i32) -> (r: Result<RegSnapshot, i32>) {
    match nix::sys::ptrace::getregs(nix::unistd::Pid::from_raw(pid)) {
        Ok(raw) => Ok(RegSnapshot { rip: raw.rip, raw }),
        Err(e) => Err(e as i32),
    }
}

/// Relies on nix::sys::ptrace::setregs (`PTRACE_SETREGS`): pushes the
/// snapshot back, with the plain `rip` written over the raw set first.
#[verifier::external_body]
pub(crate) fn push_regs(pid: i32, snap: &RegSnapshot) -> (r: Result<(), i32>) {
    let mut raw = snap.raw;
    raw.rip = snap.rip;
    match nix::sys::ptrace::setregs(nix::unistd::Pid::from_raw(pid), raw) {
        Ok(()) => Ok(()),
        Err(e) => Err(e as i32),
    }
}

/// Relies on nix::sys::ptrace::step (`PTRACE_SINGLESTEP`): asks the kernel
/// to resume the target for one instruction; completion is observed by a
/// separate wait.
#[verifier::external_body]
pub(crate) fn request_step(pid: i32) -> (r: Result<(), i32>) {
    match nix::sys::ptrace::step(nix::unistd::Pid::from_raw(pid), None) {
        Ok(()) => Ok(()),
        Err(e) => Err(e as i32),
    }
}

/// Relies on nix::sys::ptrace::cont (`PTRACE_CONT`): asks the kernel to
/// resume the target until its next stop.
#[verifier::external_body]
pub(crate) fn request_cont(pid: i32) -> (r: Result<(), i32>) {
    match nix::sys::ptrace::cont(nix::unistd::Pid::from_raw(pid), None) {
        Ok(()) => Ok(()),
        Err(e) => Err(e as i32),
    }
}

/// Relies on nix::sys::wait::waitpid: blocks until the traced process
/// changes state and reports why, each variant mapped across one for one.
#[verifier::external_body]
pub(crate) fn wait_for_status(pid: i32) -> (r: Result<WaitEvent, i32>) {
    match nix::sys::wait::waitpid(nix::unistd::Pid::from_raw(pid), None) {
        Ok(nix::sys::wait::WaitStatus::Exited(_, code)) => Ok(WaitEvent::Exited(code)),
        Ok(nix::sys::wait::WaitStatus::Signaled(_, sig, _)) => Ok(WaitEvent::Signaled(sig as i32)),
        Ok(nix::sys::wait::WaitStatus::Stopped(_, sig)) => Ok(WaitEvent::Stopped(sig as i32)),
        Ok(_) => Ok(WaitEvent::Other),
        Err(e) => Err(e as i32),
    }
}

/// Relies on nix::sys::signal::kill with `SIGKILL`: forcibly ends the
/// target.
#[verifier::external_body]
pub(crate) fn send_kill(pid: i32) -> (r: Result<(), i32>) {
    match nix::sys::signal::kill(nix::unistd::Pid::from_raw(pid), nix::sys::signal::Signal::SIGKILL) {
        Ok(()) => Ok(()),
        Err(e) => Err(e as i32),
    }
}

} // verus!
