//! The tracee: owns the traced process handle, the lazily-populated register
//! cache, the breakpoint table and the debug-information tree, and
//! orchestrates the tracing façade: stepping, continuing, planting a
//! breakpoint by address or by resolved function name, and the restore
//! protocol that leaves the target as if it had never been patched.

use vstd::prelude::*;
use crate::arch::ArchConfig;
use crate::arch::TRAP_WIDTH;
use crate::arch::patched_word;
use crate::bptable::BreakpointTable;
use crate::bptable::entries_deactivated;
use crate::bptable::entries_inserted;
use crate::regcache::Cache;
use crate::symbols::DebugTree;
use crate::symbols::SymbolError;
use crate::symbols::has_match;
use crate::symbols::is_first_match;
use crate::symbols::resolve_function;
use crate::syscalls::RegSnapshot;
use crate::syscalls;
use crate::wait::WaitEvent;

verus! {

/// The OS error code for a process that no longer exists.
pub const NO_SUCH_PROCESS: i32 = 3;

/// The tracing operation a failed syscall belongs to.
#[derive(Clone, Copy, Debug, PartialEq, Eq, Structural)]
pub enum TraceOp {
    PeekText,
    PokeText,
    GetRegs,
    SetRegs,
    SingleStep,
    Cont,
    Wait,
    Kill,
}

/// Everything a tracee operation can fail with, classified as the session
/// must treat it: OS/tracing errors are fatal only to the operation;
/// symbol-resolution errors abandon the command; breakpoint-consistency
/// errors are loud, diagnosable failures.
#[derive(Clone, Copy, Debug, PartialEq, Eq, Structural)]
pub enum TraceError {
    /// A tracing syscall failed: which operation, and the OS error code.
    Os(TraceOp, i32),
    /// A live breakpoint already covers the address.
    DuplicateBreakpoint(u64),
    /// A trap stop pointed at an address no live breakpoint covers.
    NoBreakpointAt(u64),
    /// The stop's program counter is too low to precede a trap instruction.
    TrapPcUnderflow,
    /// Breakpoint ids are exhausted.
    TooManyBreakpoints,
    /// The name did not resolve to an entry address.
    Symbol(SymbolError),
}

impl TraceOp {
    /// The failing operation's name, as the session reports it.
    pub open spec fn spec_name(self) -> Seq<char> {
        match self {
            TraceOp::PeekText => "PEEKTEXT"@,
            TraceOp::PokeText => "POKETEXT"@,
            TraceOp::GetRegs => "GETREGS"@,
            TraceOp::SetRegs => "SETREGS"@,
            TraceOp::SingleStep => "SINGLE_STEP"@,
            TraceOp::Cont => "CONT"@,
            TraceOp::Wait => "WAITPID"@,
            TraceOp::Kill => "KILL"@,
        }
    }

    pub fn name(&self) -> (r: &'static str)
        ensures
            r@ == self.spec_name(),
    {
        match self {
            TraceOp::PeekText => "PEEKTEXT",
            TraceOp::PokeText => "POKETEXT",
            TraceOp::GetRegs => "GETREGS",
            TraceOp::SetRegs => "SETREGS",
            TraceOp::SingleStep => "SINGLE_STEP",
            TraceOp::Cont => "CONT",
            TraceOp::Wait => "WAITPID",
            TraceOp::Kill => "KILL",
        }
    }
}

impl TraceError {
    /// The single printed line each error surfaces as: an OS error names the
    /// failing operation and carries the OS error code; the others describe
    /// their condition, with addresses in the session's hexadecimal form.
    pub open spec fn spec_message(self) -> Seq<char> {
        match self {
            TraceError::Os(op, code) => op.spec_name() + " failed with errno "@
                + crate::render::spec_signed_dec(code as int),
            TraceError::DuplicateBreakpoint(a) => "breakpoint already planted at "@
                + crate::render::spec_hex_field(a),
            TraceError::NoBreakpointAt(a) => "restoring breakpoint of non-breakpoint addr "@
                + crate::render::spec_hex_field(a),
            TraceError::TrapPcUnderflow => "trap reported with program counter below the trap width"@,
            TraceError::TooManyBreakpoints => "breakpoint ids exhausted"@,
            TraceError::Symbol(SymbolError::NotFound) => "no function with that name in the debug info"@,
            TraceError::Symbol(SymbolError::MissingEntryAddress) => "matching debug entry has no entry address"@,
        }
    }

    pub fn message(&self) -> (r: String)
        ensures
            r@ == self.spec_message(),
    {
        match self {
            TraceError::Os(op, code) => {
                let n = crate::render::signed_dec_i32(*code);
                let r = String::from_str(op.name()).concat(" failed with errno ").concat(
                    n.as_str(),
                );
                proof {
                    assert(r@ =~= self.spec_message());
                }
                r
            },
            TraceError::DuplicateBreakpoint(a) => {
                let h = crate::render::hex_field(*a);
                let r = String::from_str("breakpoint already planted at ").concat(h.as_str());
                proof {
                    assert(r@ =~= self.spec_message());
                }
                r
            },
            TraceError::NoBreakpointAt(a) => {
                let h = crate::render::hex_field(*a);
                let r = String::from_str("restoring breakpoint of non-breakpoint addr ").concat(
                    h.as_str(),
                );
                proof {
                    assert(r@ =~= self.spec_message());
                }
                r
            },
            TraceError::TrapPcUnderflow => String::from_str(
                "trap reported with program counter below the trap width",
            ),
            TraceError::TooManyBreakpoints => String::from_str("breakpoint ids exhausted"),
            TraceError::Symbol(SymbolError::NotFound) => String::from_str(
                "no function with that name in the debug info",
            ),
            TraceError::Symbol(SymbolError::MissingEntryAddress) => String::from_str(
                "matching debug entry has no entry address",
            ),
        }
    }
}

/// The name resolves — first match in traversal order — to entry address `a`.
pub open spec fn resolved_addr(t: DebugTree, name: Seq<char>, a: u64) -> bool {
    exists|i: int, j: int|
        #[trigger] is_first_match(t, name, i, j) && t.units@[i].entries@[j].low_pc == Some(a)
}

pub struct Tracee {
    pub pid: i32,
    pub arch: ArchConfig,
    pub cache: Cache<RegSnapshot>,
    pub breakpoints: BreakpointTable,
    pub tree: DebugTree,
}

/// The traced process, its architecture and its debug tree are the same.
pub open spec fn same_target(pre: Tracee, post: Tracee) -> bool {
    post.pid == pre.pid && post.arch == pre.arch && post.tree == pre.tree
}

/// The breakpoint table is untouched.
pub open spec fn same_bp(pre: Tracee, post: Tracee) -> bool {
    post.breakpoints.entries@ == pre.breakpoints.entries@ && post.breakpoints.next_id
        == pre.breakpoints.next_id
}

/// The register snapshot the restore protocol corrected: the cached one when
/// the cache was populated, otherwise whatever the kernel handed back.
pub open spec fn pc_source(pre: Tracee, s: RegSnapshot) -> bool {
    pre.cache.spec_populated() ==> s == pre.cache.spec_value()
}

/// What a successful breakpoint insert did: the address had no live
/// breakpoint, a new live entry for it was appended under the next id with
/// the word read from the target as its original data, and nothing else
/// moved.
pub open spec fn inserted_ok(pre: Tracee, post: Tracee, addr: u64, id: usize) -> bool {
    &&& !pre.breakpoints.spec_contains_active(addr)
    &&& pre.breakpoints.next_id < usize::MAX
    &&& id == pre.breakpoints.next_id
    &&& post.breakpoints.next_id == pre.breakpoints.next_id + 1
    &&& exists|w: u64|
        post.breakpoints.entries@ == #[trigger] entries_inserted(
            pre.breakpoints.entries@,
            pre.breakpoints.next_id as int,
            addr,
            w,
        )
    &&& post.breakpoints.spec_contains_active(addr)
    &&& post.cache == pre.cache
    &&& same_target(pre, post)
}

impl Tracee {
    /// The architecture is well formed and the table's invariant holds.
    pub open spec fn wf(self) -> bool {
        self.arch.wf() && self.breakpoints.wf()
    }

    /// A tracee for an already-spawned, already-traced process, with an
    /// empty breakpoint table and an unpopulated register cache.
    pub fn new(pid: i32, arch: ArchConfig, tree: DebugTree) -> (r: Tracee)
        requires
            arch.wf(),
        ensures
            r.wf(),
            r.pid == pid,
            r.arch == arch,
            r.tree == tree,
            !r.cache.spec_populated(),
            r.breakpoints.entries@ == Seq::<crate::bptable::Breakpoint>::empty(),
            r.breakpoints.next_id == 1,
    {
        Tracee {
            pid,
            arch,
            cache: Cache::new(),
            breakpoints: BreakpointTable::new(),
            tree,
        }
    }

    /// Stable for the process lifetime.
    pub fn pid(&self) -> (r: i32)
        ensures
            r == self.pid,
    {
        self.pid
    }

    /// The register snapshot for the currently stopped process: the cached
    /// one, populated from the kernel on first access after an invalidation.
    /// Never itself resumes or steps the target.
    pub fn regs(&mut self) -> (r: Result<RegSnapshot, TraceError>)
        requires
            old(self).wf(),
        ensures
            final(self).wf(),
            same_target(*old(self), *final(self)),
            same_bp(*old(self), *final(self)),
            match r {
                Ok(s) => {
                    &&& final(self).cache.spec_populated()
                    &&& final(self).cache.spec_value() == s
                    &&& old(self).cache.spec_populated() ==> s == old(self).cache.spec_value()
                        && *final(self) == *old(self)
                },
                Err(e) => {
                    &&& e matches TraceError::Os(TraceOp::GetRegs, _)
                    &&& !old(self).cache.spec_populated()
                    &&& *final(self) == *old(self)
                },
            },
    {
        match self.cache.get() {
            Some(s) => Ok(*s),
            None => match syscalls::fetch_regs(self.pid) {
                Ok(s) => {
                    self.cache.populate(s);
                    Ok(s)
                },
                Err(e) => Err(TraceError::Os(TraceOp::GetRegs, e)),
            },
        }
    }

    /// The raw word at `addr` in the target's memory.
    pub fn instr_at(&self, addr: u64) -> (r: Result<u64, TraceError>)
        ensures
            r matches Err(e) ==> e matches TraceError::Os(TraceOp::PeekText, _),
    {
        match syscalls::peek_word(self.pid, addr) {
            Ok(w) => Ok(w),
            Err(e) => Err(TraceError::Os(TraceOp::PeekText, e)),
        }
    }

    /// Asks the kernel to step one instruction and invalidates the register
    /// cache; the caller observes completion with a separate `wait`.
    pub fn single_step(&mut self) -> (r: Result<(), TraceError>)
        requires
            old(self).wf(),
        ensures
            final(self).wf(),
            same_target(*old(self), *final(self)),
            same_bp(*old(self), *final(self)),
            !final(self).cache.spec_populated(),
            r matches Err(e) ==> e matches TraceError::Os(TraceOp::SingleStep, _),
    {
        self.cache.invalidate();
        match syscalls::request_step(self.pid) {
            Ok(()) => Ok(()),
            Err(e) => Err(TraceError::Os(TraceOp::SingleStep, e)),
        }
    }

    /// Asks the kernel to run the target until its next stop and invalidates
    /// the register cache; the caller observes the stop with `wait`.
    pub fn cont(&mut self) -> (r: Result<(), TraceError>)
        requires
            old(self).wf(),
        ensures
            final(self).wf(),
            same_target(*old(self), *final(self)),
            same_bp(*old(self), *final(self)),
            !final(self).cache.spec_populated(),
            r matches Err(e) ==> e matches TraceError::Os(TraceOp::Cont, _),
    {
        self.cache.invalidate();
        match syscalls::request_cont(self.pid) {
            Ok(()) => Ok(()),
            Err(e) => Err(TraceError::Os(TraceOp::Cont, e)),
        }
    }

    /// Blocks until the traced process changes state and reports why.
    pub fn wait(&self) -> (r: Result<WaitEvent, TraceError>)
        ensures
            r matches Err(e) ==> e matches TraceError::Os(TraceOp::Wait, _),
    {
        match syscalls::wait_for_status(self.pid) {
            Ok(ev) => Ok(ev),
            Err(e) => Err(TraceError::Os(TraceOp::Wait, e)),
        }
    }

    /// Forcibly ends the target; idempotent if it has already exited: a
    /// no-such-process failure is success, so an error never carries that
    /// code.
    pub fn kill(&self) -> (r: Result<(), TraceError>)
        ensures
            r matches Err(e) ==> e matches TraceError::Os(TraceOp::Kill, _),
            r matches Err(TraceError::Os(_, code)) ==> code != NO_SUCH_PROCESS,
    {
        match syscalls::send_kill(self.pid) {
            Ok(()) => Ok(()),
            Err(e) => if e == NO_SUCH_PROCESS {
                Ok(())
            } else {
                Err(TraceError::Os(TraceOp::Kill, e))
            },
        }
    }

    /// Plants a breakpoint at `addr`: reads the word there, records it with
    /// a fresh id, and writes back the word with the trap opcode spliced
    /// into its low byte.  Rejects the insert while a live breakpoint covers
    /// `addr`, so the recorded original word is never lost.
    pub fn insert_breakpoint(&mut self, addr: u64) -> (r: Result<usize, TraceError>)
        requires
            old(self).wf(),
        ensures
            final(self).wf(),
            same_target(*old(self), *final(self)),
            match r {
                Ok(id) => inserted_ok(*old(self), *final(self), addr, id),
                Err(e) => match e {
                    TraceError::DuplicateBreakpoint(a) => a == addr && old(
                        self,
                    ).breakpoints.spec_contains_active(addr) && *final(self) == *old(self),
                    TraceError::TooManyBreakpoints => old(self).breakpoints.next_id == usize::MAX
                        && *final(self) == *old(self),
                    TraceError::Os(op, _) => (op is PeekText || op is PokeText) && !old(
                        self,
                    ).breakpoints.spec_contains_active(addr) && *final(self) == *old(self),
                    _ => false,
                },
            },
    {
        if let Some(_live) = self.breakpoints.find_active(addr) {
            return Err(TraceError::DuplicateBreakpoint(addr));
        }
        if self.breakpoints.next_id == usize::MAX {
            return Err(TraceError::TooManyBreakpoints);
        }
        let w = match syscalls::peek_word(self.pid, addr) {
            Ok(w) => w,
            Err(e) => {
                return Err(TraceError::Os(TraceOp::PeekText, e));
            },
        };
        let patched = patched_word(&self.arch, w);
        if let Err(e) = syscalls::poke_word(self.pid, addr, patched) {
            return Err(TraceError::Os(TraceOp::PokeText, e));
        }
        let id = self.breakpoints.insert(addr, w);
        proof {
            assert(final(self).breakpoints.entries@ == entries_inserted(
                old(self).breakpoints.entries@,
                old(self).breakpoints.next_id as int,
                addr,
                w,
            ));
        }
        Ok(id)
    }

    /// Resolves `name` in the debug tree and plants a breakpoint at the
    /// function's entry address.
    pub fn insert_breakpoint_function(&mut self, name: &str) -> (r: Result<usize, TraceError>)
        requires
            old(self).wf(),
        ensures
            final(self).wf(),
            same_target(*old(self), *final(self)),
            match r {
                Ok(id) => exists|a: u64|
                    #[trigger] resolved_addr(old(self).tree, name@, a) && inserted_ok(
                        *old(self),
                        *final(self),
                        a,
                        id,
                    ),
                Err(e) => match e {
                    TraceError::Symbol(se) => *final(self) == *old(self) && (match se {
                        SymbolError::NotFound => !has_match(old(self).tree, name@),
                        SymbolError::MissingEntryAddress => exists|i: int, j: int|
                            #[trigger] is_first_match(old(self).tree, name@, i, j) && old(
                                self,
                            ).tree.units@[i].entries@[j].low_pc is None,
                    }),
                    TraceError::DuplicateBreakpoint(a) => resolved_addr(old(self).tree, name@, a)
                        && old(self).breakpoints.spec_contains_active(a) && *final(self) == *old(
                        self,
                    ),
                    TraceError::TooManyBreakpoints => {
                        &&& old(self).breakpoints.next_id == usize::MAX
                        &&& *final(self) == *old(self)
                        &&& exists|a: u64| #[trigger] resolved_addr(old(self).tree, name@, a)
                    },
                    TraceError::Os(op, _) => {
                        &&& (op is PeekText || op is PokeText)
                        &&& *final(self) == *old(self)
                        &&& exists|a: u64|
                            #[trigger] resolved_addr(old(self).tree, name@, a) && !old(
                                self,
                            ).breakpoints.spec_contains_active(a)
                    },
                    _ => false,
                },
            },
    {
        let a = match resolve_function(&self.tree, name) {
            Ok(a) => a,
            Err(se) => {
                return Err(TraceError::Symbol(se));
            },
        };
        let r = self.insert_breakpoint(a);
        proof {
            assert(resolved_addr(old(self).tree, name@, a));
        }
        match r {
            Ok(id) => Ok(id),
            Err(e) => Err(e),
        }
    }

    /// The restore protocol for a trap believed to be a breakpoint hit:
    /// correct the program counter back by the trap width, find the live
    /// breakpoint it names — a loud, distinct error if none exists — write
    /// the original word back over the patch, and push the corrected
    /// register set.  On success the target is bit-for-bit as if the trap
    /// had never been inserted, poised to re-execute the original
    /// instruction, and the cache holds the corrected snapshot.
    pub fn restore_breakpoint(&mut self) -> (r: Result<(u64, u64), TraceError>)
        requires
            old(self).wf(),
        ensures
            final(self).wf(),
            same_target(*old(self), *final(self)),
            match r {
                Ok(p) => exists|s: RegSnapshot|
                    {
                        &&& #[trigger] pc_source(*old(self), s)
                        &&& s.rip >= TRAP_WIDTH
                        &&& p.0 == s.rip - TRAP_WIDTH
                        &&& old(self).breakpoints.spec_contains_active(p.0)
                        &&& p.1 == old(self).breakpoints.spec_active_data(p.0)
                        &&& final(self).breakpoints.entries@ == entries_deactivated(
                            old(self).breakpoints.entries@,
                            p.0,
                        )
                        &&& final(self).breakpoints.next_id == old(self).breakpoints.next_id
                        &&& !final(self).breakpoints.spec_contains_active(p.0)
                        &&& final(self).cache.spec_populated()
                        &&& final(self).cache.spec_value().rip == p.0
                        &&& final(self).cache.spec_value().raw == s.raw
                    },
                Err(e) => match e {
                    TraceError::Os(TraceOp::GetRegs, _) => !old(self).cache.spec_populated()
                        && *final(self) == *old(self),
                    TraceError::TrapPcUnderflow => exists|s: RegSnapshot|
                        {
                            &&& #[trigger] pc_source(*old(self), s)
                            &&& s.rip < TRAP_WIDTH
                            &&& same_bp(*old(self), *final(self))
                            &&& final(self).cache.spec_populated()
                            &&& final(self).cache.spec_value() == s
                        },
                    TraceError::NoBreakpointAt(a) => exists|s: RegSnapshot|
                        {
                            &&& #[trigger] pc_source(*old(self), s)
                            &&& s.rip >= TRAP_WIDTH
                            &&& a == s.rip - TRAP_WIDTH
                            &&& !old(self).breakpoints.spec_contains_active(a)
                            &&& same_bp(*old(self), *final(self))
                            &&& final(self).cache.spec_populated()
                            &&& final(self).cache.spec_value() == s
                        },
                    TraceError::Os(TraceOp::PokeText, _) => exists|s: RegSnapshot|
                        {
                            &&& #[trigger] pc_source(*old(self), s)
                            &&& s.rip >= TRAP_WIDTH
                            &&& old(self).breakpoints.spec_contains_active(
                                (s.rip - TRAP_WIDTH) as u64,
                            )
                            &&& same_bp(*old(self), *final(self))
                            &&& final(self).cache.spec_populated()
                            &&& final(self).cache.spec_value() == s
                        },
                    TraceError::Os(TraceOp::SetRegs, _) => exists|s: RegSnapshot|
                        {
                            &&& #[trigger] pc_source(*old(self), s)
                            &&& s.rip >= TRAP_WIDTH
                            &&& old(self).breakpoints.spec_contains_active(
                                (s.rip - TRAP_WIDTH) as u64,
                            )
                            &&& final(self).breakpoints.entries@ == entries_deactivated(
                                old(self).breakpoints.entries@,
                                (s.rip - TRAP_WIDTH) as u64,
                            )
                            &&& final(self).breakpoints.next_id == old(self).breakpoints.next_id
                            &&& !final(self).cache.spec_populated()
                        },
                    _ => false,
                },
            },
    {
        let snap: RegSnapshot = match self.cache.get() {
            Some(s) => *s,
            None => match syscalls::fetch_regs(self.pid) {
                Ok(s) => s,
                Err(e) => {
                    return Err(TraceError::Os(TraceOp::GetRegs, e));
                },
            },
        };
        proof {
            assert(pc_source(*old(self), snap));
        }
        if snap.rip < TRAP_WIDTH {
            self.cache.populate(snap);
            return Err(TraceError::TrapPcUnderflow);
        }
        let a = snap.rip - TRAP_WIDTH;
        let w = match self.breakpoints.find_active(a) {
            Some((w, _id)) => w,
            None => {
                self.cache.populate(snap);
                return Err(TraceError::NoBreakpointAt(a));
            },
        };
        if let Err(e) = syscalls::poke_word(self.pid, a, w) {
            self.cache.populate(snap);
            return Err(TraceError::Os(TraceOp::PokeText, e));
        }
        let _ = self.breakpoints.deactivate(a);
        let corrected = RegSnapshot { rip: a, raw: snap.raw };
        if let Err(e) = syscalls::push_regs(self.pid, &corrected) {
            self.cache.invalidate();
            return Err(TraceError::Os(TraceOp::SetRegs, e));
        }
        self.cache.populate(corrected);
        Ok((a, w))
    }
}

} // verus!
