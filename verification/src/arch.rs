//! Architecture parameterization: word width and the mask used when splicing
//! the one-byte trap opcode into a code word.  Selected once at startup and
//! threaded into the tracee, never a compiled-in global.

use vstd::prelude::*;

verus! {

/// The one-byte trap opcode (x86 `int3`) spliced into the text segment.
pub const TRAP_OPCODE: u64 = 0xcc;

/// How many bytes the trap instruction occupies; the program counter has
/// advanced past it by exactly this much when the trap fires.
pub const TRAP_WIDTH: u64 = 1;

/// Word width and low-byte clearing mask for one target CPU family.
pub struct ArchConfig {
    /// 32 or 64: the pointer width of the target.
    pub bitness: u32,
    /// Clears the low byte(s) covering the trap instruction's width.
    pub lsb_mask: u64,
}

impl ArchConfig {
    /// The mask keeps every bit of a word except the low byte, and the
    /// bitness is one the disassembler accepts.
    pub open spec fn wf(self) -> bool {
        (self.bitness == 64 && self.lsb_mask == 0xffff_ffff_ffff_ff00u64) || (self.bitness == 32
            && self.lsb_mask == 0xffff_ff00u64)
    }

    pub fn x86_64() -> (r: ArchConfig)
        ensures
            r.wf(),
            r.bitness == 64,
    {
        ArchConfig { bitness: 64, lsb_mask: 0xffff_ffff_ffff_ff00u64 }
    }

    pub fn x86() -> (r: ArchConfig)
        ensures
            r.wf(),
            r.bitness == 32,
    {
        ArchConfig { bitness: 32, lsb_mask: 0xffff_ff00u64 }
    }
}

/// The word written over `w` when planting a breakpoint: the byte(s) covering
/// the trap width are cleared and the trap opcode is OR-ed in.
pub open spec fn spec_patched_word(cfg: ArchConfig, w: u64) -> u64 {
    (w & cfg.lsb_mask) | TRAP_OPCODE
}

pub fn patched_word(cfg: &ArchConfig, w: u64) -> (r: u64)
    ensures
        r == spec_patched_word(*cfg, w),
{
    (w & cfg.lsb_mask) | TRAP_OPCODE
}

/// On a well-formed configuration the patch puts the trap opcode in the low
/// byte and, for the 64-bit family, leaves the seven high bytes of the word
/// untouched.
pub proof fn lemma_patched_word_shape(cfg: ArchConfig, w: u64)
    requires
        cfg.wf(),
    ensures
        spec_patched_word(cfg, w) & 0xff == TRAP_OPCODE,
        cfg.bitness == 64 ==> spec_patched_word(cfg, w) & 0xffff_ffff_ffff_ff00u64 == w
            & 0xffff_ffff_ffff_ff00u64,
{
    let m = cfg.lsb_mask;
    assert((m == 0xffff_ffff_ffff_ff00u64 || m == 0xffff_ff00u64) ==> ((w & m) | 0xcc) & 0xff
        == 0xcc) by (bit_vector);
    assert(((w & 0xffff_ffff_ffff_ff00u64) | 0xcc) & 0xffff_ffff_ffff_ff00u64 == w
        & 0xffff_ffff_ffff_ff00u64) by (bit_vector);
}

} // verus!
