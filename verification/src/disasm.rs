//! The disassembly collaborator: given the target's bit width, the raw
//! little-endian word at the program counter and the program-counter value,
//! it renders a single-line mnemonic.  Purely a rendering step with no side
//! effects; the session only ever displays the result.

use vstd::prelude::*;
use crate::arch::ArchConfig;
use crate::render;

verus! {

/// The mnemonic the disassembler renders for the first instruction in the
/// little-endian bytes of `word` decoded at address `ip` with the given bit
/// width: a function of the arguments alone.
pub uninterp spec fn mnemonic_of(bitness: u32, word: u64, ip: u64) -> Seq<char>;

/// Relies on iced_x86's `Decoder` (which accepts exactly the widths 16, 32
/// and 64) and `IntelFormatter`: decoding the little-endian bytes of `word`
/// at `ip` and formatting the result is deterministic in the arguments.
#[verifier::external_body]
fn format_instruction(bitness: u32, word: u64, ip: u64) -> (r: String)
    requires
        bitness == 32 || bitness == 64,
    ensures
        r@ == mnemonic_of(bitness, word, ip),
{
    let bytes = word.to_le_bytes();
    let mut decoder = iced_x86::Decoder::new(bitness, &bytes, iced_x86::DecoderOptions::NONE);
    decoder.set_ip(ip);
    let mut instr = iced_x86::Instruction::new();
    decoder.decode_out(&mut instr);
    let mut formatter = iced_x86::IntelFormatter::new();
    let mut out = String::new();
    iced_x86::Formatter::format(&mut formatter, &instr, &mut out);
    out
}

/// Disassembles the raw word fetched at `ip` into a one-line mnemonic.
pub fn decode_instr(cfg: &ArchConfig, ip: u64, word: u64) -> (r: String)
    requires
        cfg.wf(),
    ensures
        r@ == mnemonic_of(cfg.bitness, word, ip),
{
    format_instruction(cfg.bitness, word, ip)
}

/// The full report line for a stop at `pc` whose text word is `word`.
pub fn stop_line(cfg: &ArchConfig, pc: u64, word: u64) -> (r: String)
    requires
        cfg.wf(),
    ensures
        r@ == render::spec_stop_line(pc, word, mnemonic_of(cfg.bitness, word, pc)),
{
    let m = decode_instr(cfg, pc, word);
    render::render_stop_line(pc, word, m.as_str())
}

} // verus!
