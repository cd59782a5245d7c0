//! Dispatch of one parsed operator command against the tracee, and the
//! per-stop report line.  The session loop around this is I/O: it prompts,
//! parses, dispatches, prints what these functions hand back, and advances
//! the session state on the wait status.

use vstd::prelude::*;
use crate::bptable::entries_deactivated;
use crate::command::Command;
use crate::disasm::mnemonic_of;
use crate::disasm;
use crate::render::spec_stop_line;
use crate::tracee::TraceError;
use crate::tracee::TraceOp;
use crate::tracee::Tracee;
use crate::tracee::inserted_ok;
use crate::tracee::resolved_addr;
use crate::tracee::same_bp;
use crate::tracee::same_target;
use crate::wait::StopClass;
use crate::wait::WaitEvent;
use crate::wait::spec_classify;
use crate::wait::classify_wait;

verus! {

/// What dispatching one command produced: nothing to report, a planted
/// breakpoint's id, a stop status, or a stop that was a breakpoint hit —
/// already restored — with the corrected address and the word written back.
#[derive(Clone, Copy, Debug, PartialEq, Eq, Structural)]
pub enum EvalOutcome {
    Quiet,
    Planted(usize),
    Ran(WaitEvent),
    HitBreakpoint(WaitEvent, u64, u64),
}

/// A reported breakpoint hit: the corrected address had a live breakpoint
/// whose recorded word is `w`; it is now inactive, and the cached program
/// counter is back on `a`, poised to re-execute the original instruction.
pub open spec fn hit_restored(pre: Tracee, post: Tracee, a: u64, w: u64) -> bool {
    &&& pre.breakpoints.spec_contains_active(a)
    &&& w == pre.breakpoints.spec_active_data(a)
    &&& post.breakpoints.entries@ == entries_deactivated(pre.breakpoints.entries@, a)
    &&& post.breakpoints.next_id == pre.breakpoints.next_id
    &&& !post.breakpoints.spec_contains_active(a)
    &&& post.cache.spec_populated()
    &&& post.cache.spec_value().rip == a
}

/// Dispatches one command: `Noop` does nothing; `Next` steps and waits;
/// `Cont` resumes, waits, and — exactly when the stop is a trap-signal stop
/// — treats it as a breakpoint hit and runs the restore protocol; the two
/// `Break` forms plant a breakpoint.  Any error leaves the command a no-op
/// at worst half-done, as stated case by case.
pub fn eval_command(t: &mut Tracee, cmd: Command) -> (r: Result<EvalOutcome, TraceError>)
    requires
        old(t).wf(),
    ensures
        final(t).wf(),
        same_target(*old(t), *final(t)),
        match r {
            Ok(out) => match out {
                EvalOutcome::Quiet => cmd is Noop && *final(t) == *old(t),
                EvalOutcome::Planted(id) => match cmd {
                    Command::BreakAddr(a) => inserted_ok(*old(t), *final(t), a, id),
                    Command::BreakFunction(name) => exists|a: u64|
                        #[trigger] resolved_addr(old(t).tree, name@, a) && inserted_ok(
                            *old(t),
                            *final(t),
                            a,
                            id,
                        ),
                    _ => false,
                },
                EvalOutcome::Ran(ev) => {
                    &&& cmd is Next || cmd is Cont
                    &&& cmd is Cont ==> !(spec_classify(ev) is BreakpointTrap)
                    &&& same_bp(*old(t), *final(t))
                    &&& cmd is Next ==> !final(t).cache.spec_populated()
                },
                EvalOutcome::HitBreakpoint(ev, a, w) => {
                    &&& cmd is Cont
                    &&& spec_classify(ev) is BreakpointTrap
                    &&& hit_restored(*old(t), *final(t), a, w)
                },
            },
            Err(e) => match e {
                TraceError::Os(op, _) => {
                    &&& match cmd {
                        Command::Noop => false,
                        Command::Next => (op is SingleStep || op is Wait) && same_bp(
                            *old(t),
                            *final(t),
                        ) && !final(t).cache.spec_populated(),
                        Command::Cont => {
                            &&& (op is Cont || op is Wait || op is GetRegs || op is PokeText
                                || op is SetRegs)
                            &&& (op is Cont || op is Wait || op is GetRegs || op is PokeText)
                                ==> same_bp(*old(t), *final(t))
                            &&& final(t).breakpoints.next_id == old(t).breakpoints.next_id
                        },
                        Command::BreakAddr(_) => (op is PeekText || op is PokeText) && *final(t)
                            == *old(t),
                        Command::BreakFunction(name) => {
                            &&& (op is PeekText || op is PokeText)
                            &&& *final(t) == *old(t)
                            &&& exists|a: u64|
                                #[trigger] resolved_addr(old(t).tree, name@, a)
                                    && !old(t).breakpoints.spec_contains_active(a)
                        },
                    }
                },
                TraceError::DuplicateBreakpoint(a) => {
                    &&& *final(t) == *old(t)
                    &&& old(t).breakpoints.spec_contains_active(a)
                    &&& match cmd {
                        Command::BreakAddr(b) => a == b,
                        Command::BreakFunction(name) => resolved_addr(old(t).tree, name@, a),
                        _ => false,
                    }
                },
                TraceError::NoBreakpointAt(a) => cmd is Cont
                    && !old(t).breakpoints.spec_contains_active(a) && same_bp(*old(t), *final(t)),
                TraceError::TrapPcUnderflow => cmd is Cont && same_bp(*old(t), *final(t)),
                TraceError::TooManyBreakpoints => {
                    &&& cmd is BreakAddr || cmd is BreakFunction
                    &&& old(t).breakpoints.next_id == usize::MAX
                    &&& *final(t) == *old(t)
                    &&& cmd matches Command::BreakFunction(name) ==> exists|a: u64|
                        #[trigger] resolved_addr(old(t).tree, name@, a)
                },
                TraceError::Symbol(_) => cmd is BreakFunction && *final(t) == *old(t),
            },
        },
{
    match cmd {
        Command::Noop => Ok(EvalOutcome::Quiet),
        Command::Next => {
            step_and_wait(t)
        },
        Command::Cont => {
            if let Err(e) = t.cont() {
                return Err(e);
            }
            let ev = match t.wait() {
                Ok(ev) => ev,
                Err(e) => {
                    return Err(e);
                },
            };
            match classify_wait(&ev) {
                StopClass::BreakpointTrap => match t.restore_breakpoint() {
                    Ok((a, w)) => Ok(EvalOutcome::HitBreakpoint(ev, a, w)),
                    Err(e) => Err(e),
                },
                _ => Ok(EvalOutcome::Ran(ev)),
            }
        },
        Command::BreakAddr(a) => match t.insert_breakpoint(a) {
            Ok(id) => Ok(EvalOutcome::Planted(id)),
            Err(e) => Err(e),
        },
        Command::BreakFunction(name) => match t.insert_breakpoint_function(name.as_str()) {
            Ok(id) => Ok(EvalOutcome::Planted(id)),
            Err(e) => Err(e),
        },
    }
}

fn step_and_wait(t: &mut Tracee) -> (r: Result<EvalOutcome, TraceError>)
    requires
        old(t).wf(),
    ensures
        final(t).wf(),
        same_target(*old(t), *final(t)),
        same_bp(*old(t), *final(t)),
        !final(t).cache.spec_populated(),
        match r {
            Ok(out) => out matches EvalOutcome::Ran(_),
            Err(e) => e matches TraceError::Os(op, _) && (op is SingleStep || op is Wait),
        },
{
    if let Err(e) = t.single_step() {
        return Err(e);
    }
    match t.wait() {
        Ok(ev) => Ok(EvalOutcome::Ran(ev)),
        Err(e) => Err(e),
    }
}

/// The report line for the current stop: the cached (kernel-fresh) program
/// counter, the raw word at it, and that word's disassembly.
pub fn stop_report(t: &mut Tracee) -> (r: Result<String, TraceError>)
    requires
        old(t).wf(),
    ensures
        final(t).wf(),
        same_target(*old(t), *final(t)),
        same_bp(*old(t), *final(t)),
        match r {
            Ok(line) => {
                &&& final(t).cache.spec_populated()
                &&& exists|word: u64|
                    line@ == spec_stop_line(
                        final(t).cache.spec_value().rip,
                        word,
                        #[trigger] mnemonic_of(
                            final(t).arch.bitness,
                            word,
                            final(t).cache.spec_value().rip,
                        ),
                    )
            },
            Err(e) => {
                &&& e matches TraceError::Os(op, _) && (op is GetRegs || op is PeekText)
                &&& e matches TraceError::Os(TraceOp::GetRegs, _)
                    ==> !old(t).cache.spec_populated() && !final(t).cache.spec_populated()
                &&& e matches TraceError::Os(TraceOp::PeekText, _)
                    ==> final(t).cache.spec_populated()
            },
        },
{
    let s = match t.regs() {
        Ok(s) => s,
        Err(e) => {
            return Err(e);
        },
    };
    let word = match t.instr_at(s.rip) {
        Ok(w) => w,
        Err(e) => {
            return Err(e);
        },
    };
    let line = disasm::stop_line(&t.arch, s.rip, word);
    proof {
        assert(line@ == spec_stop_line(
            final(t).cache.spec_value().rip,
            word,
            mnemonic_of(final(t).arch.bitness, word, final(t).cache.spec_value().rip),
        ));
    }
    Ok(line)
}

} // verus!
