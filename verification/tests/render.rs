use bgdb::arch::ArchConfig;
use bgdb::disasm::{decode_instr, stop_line};
use bgdb::render::{hex_field, render_stop_line};

#[test]
fn hex_field_pads_to_fourteen_digits_after_prefix() {
    assert_eq!(hex_field(0x401000), "0x00000000401000");
    assert_eq!(hex_field(0), "0x00000000000000");
    assert_eq!(hex_field(0xf), "0x0000000000000f");
}

#[test]
fn hex_field_grows_past_fourteen_digits() {
    assert_eq!(hex_field(u64::MAX), "0xffffffffffffffff");
    assert_eq!(hex_field(0x0123_4567_89ab_cdef), "0x123456789abcdef");
}

#[test]
fn hex_field_matches_formatter_width_sixteen() {
    let samples: [u64; 8] = [
        0,
        1,
        0xcc,
        0x401000,
        0x7fff_ffff,
        0x1000_0000_0000_0000,
        0xdead_beef_cafe_f00d,
        u64::MAX,
    ];
    for v in samples {
        assert_eq!(hex_field(v), format!("{:#016x}", v));
    }
}

#[test]
fn stop_line_has_documented_shape() {
    let line = render_stop_line(0x401000, 0x90, "nop");
    assert_eq!(line, "0x00000000401000:    0x00000000000090.    nop");
}

#[test]
fn decode_nop_word() {
    let cfg = ArchConfig::x86_64();
    // 0x90 is the single-byte `nop`; the rendered mnemonic names it.
    let m = decode_instr(&cfg, 0x401000, 0x90);
    assert_eq!(m, "nop");
}

#[test]
fn decode_ret_word() {
    let cfg = ArchConfig::x86_64();
    // 0xc3 is `ret`
    let m = decode_instr(&cfg, 0x1000, 0xc3);
    assert_eq!(m, "ret");
}

#[test]
fn decode_differs_between_words() {
    let cfg = ArchConfig::x86_64();
    assert_ne!(decode_instr(&cfg, 0x1000, 0x90), decode_instr(&cfg, 0x1000, 0xc3));
}

#[test]
fn stop_line_combines_fields_and_mnemonic() {
    let cfg = ArchConfig::x86_64();
    let line = stop_line(&cfg, 0x401000, 0x90);
    assert_eq!(line, "0x00000000401000:    0x00000000000090.    nop");
}

#[test]
fn decode_32_bit_mode() {
    let cfg = ArchConfig::x86();
    let m = decode_instr(&cfg, 0x1000, 0x90);
    assert_eq!(m, "nop");
}
