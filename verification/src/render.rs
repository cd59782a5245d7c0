//! Rendering of the per-stop report line: `<hex PC>:    <hex word>.    <mnemonic>`,
//! with each number printed as `0x` followed by its lower-case hexadecimal
//! numeral zero-padded to at least fourteen digits.

use vstd::prelude::*;

verus! {

/// The lower-case hexadecimal digit for `v` (meaningful for `0 <= v < 16`).
pub open spec fn hex_digit_char(v: int) -> char {
    if v == 0 {
        '0'
    } else if v == 1 {
        '1'
    } else if v == 2 {
        '2'
    } else if v == 3 {
        '3'
    } else if v == 4 {
        '4'
    } else if v == 5 {
        '5'
    } else if v == 6 {
        '6'
    } else if v == 7 {
        '7'
    } else if v == 8 {
        '8'
    } else if v == 9 {
        '9'
    } else if v == 10 {
        'a'
    } else if v == 11 {
        'b'
    } else if v == 12 {
        'c'
    } else if v == 13 {
        'd'
    } else if v == 14 {
        'e'
    } else {
        'f'
    }
}

/// The hexadecimal numeral of `v` without leading zeros (just `0` for zero).
pub open spec fn spec_hex_digits(v: int) -> Seq<char>
    decreases v,
{
    if v <= 15 {
        seq![hex_digit_char(v)]
    } else {
        spec_hex_digits(v / 16).push(hex_digit_char(v % 16))
    }
}

pub open spec fn spec_zeros(n: nat) -> Seq<char> {
    Seq::new(n, |i: int| '0')
}

/// A number as the session prints it: `0x`, then the numeral left-padded
/// with zeros to at least fourteen digits.
pub open spec fn spec_hex_field(v: u64) -> Seq<char> {
    let d = spec_hex_digits(v as int);
    if d.len() >= 14 {
        "0x"@ + d
    } else {
        "0x"@ + spec_zeros((14 - d.len()) as nat) + d
    }
}

/// The whole report line for one stop.
pub open spec fn spec_stop_line(pc: u64, word: u64, mnemonic: Seq<char>) -> Seq<char> {
    spec_hex_field(pc) + ":    "@ + spec_hex_field(word) + ".    "@ + mnemonic
}

fn hex_digit_str(v: u64) -> (r: &'static str)
    requires
        v < 16,
    ensures
        r@ == seq![hex_digit_char(v as int)],
{
    let r: &'static str = if v == 0 {
        "0"
    } else if v == 1 {
        "1"
    } else if v == 2 {
        "2"
    } else if v == 3 {
        "3"
    } else if v == 4 {
        "4"
    } else if v == 5 {
        "5"
    } else if v == 6 {
        "6"
    } else if v == 7 {
        "7"
    } else if v == 8 {
        "8"
    } else if v == 9 {
        "9"
    } else if v == 10 {
        "a"
    } else if v == 11 {
        "b"
    } else if v == 12 {
        "c"
    } else if v == 13 {
        "d"
    } else if v == 14 {
        "e"
    } else {
        "f"
    };
    proof {
        reveal_strlit("0");
        reveal_strlit("1");
        reveal_strlit("2");
        reveal_strlit("3");
        reveal_strlit("4");
        reveal_strlit("5");
        reveal_strlit("6");
        reveal_strlit("7");
        reveal_strlit("8");
        reveal_strlit("9");
        reveal_strlit("a");
        reveal_strlit("b");
        reveal_strlit("c");
        reveal_strlit("d");
        reveal_strlit("e");
        reveal_strlit("f");
        assert(r@ =~= seq![hex_digit_char(v as int)]);
    }
    r
}

fn push_hex_digits(v: u64, out: &mut String)
    ensures
        final(out)@ == old(out)@ + spec_hex_digits(v as int),
    decreases v,
{
    if v <= 15 {
        out.append(hex_digit_str(v));
    } else {
        push_hex_digits(v / 16, out);
        out.append(hex_digit_str(v % 16));
        proof {
            assert(old(out)@ + spec_hex_digits(v as int / 16) + seq![
                hex_digit_char(v as int % 16),
            ] =~= old(out)@ + spec_hex_digits(v as int));
        }
    }
}

fn count_hex_digits(v: u64) -> (r: usize)
    ensures
        r == spec_hex_digits(v as int).len(),
        1 <= r <= 16,
    decreases v,
{
    if v <= 15 {
        1
    } else {
        proof {
            lemma_pow16_15();
            lemma_hex_digits_len_shrinks(v as int / 16, 15);
        }
        1 + count_hex_digits(v / 16)
    }
}

proof fn lemma_pow16_15()
    ensures
        pow16(15) == 0x1000_0000_0000_0000,
{
    assert(pow16(0) == 1);
    assert(pow16(1) == 16);
    assert(pow16(2) == 0x100);
    assert(pow16(3) == 0x1000);
    assert(pow16(4) == 0x1_0000);
    assert(pow16(5) == 0x10_0000);
    assert(pow16(6) == 0x100_0000);
    assert(pow16(7) == 0x1000_0000);
    assert(pow16(8) == 0x1_0000_0000);
    assert(pow16(9) == 0x10_0000_0000);
    assert(pow16(10) == 0x100_0000_0000);
    assert(pow16(11) == 0x1000_0000_0000);
    assert(pow16(12) == 0x1_0000_0000_0000);
    assert(pow16(13) == 0x10_0000_0000_0000);
    assert(pow16(14) == 0x100_0000_0000_0000);
    assert(pow16(15) == 0x1000_0000_0000_0000);
}

proof fn lemma_hex_digits_len_shrinks(v: int, bound: nat)
    requires
        0 <= v < pow16(bound),
    ensures
        spec_hex_digits(v).len() <= bound || bound == 0,
    decreases v,
{
    if v > 15 && bound > 0 {
        assert(pow16(bound) == 16 * pow16((bound - 1) as nat));
        lemma_hex_digits_len_shrinks(v / 16, (bound - 1) as nat);
    }
}

pub open spec fn pow16(e: nat) -> int
    decreases e,
{
    if e == 0 {
        1
    } else {
        16 * pow16((e - 1) as nat)
    }
}

/// The decimal numeral of `v` without leading zeros (for digits below ten,
/// the hexadecimal digit characters are the decimal ones).
pub open spec fn spec_dec_digits(v: int) -> Seq<char>
    decreases v,
{
    if v <= 9 {
        seq![hex_digit_char(v)]
    } else {
        spec_dec_digits(v / 10).push(hex_digit_char(v % 10))
    }
}

/// A possibly negative number in decimal.
pub open spec fn spec_signed_dec(v: int) -> Seq<char> {
    if v >= 0 {
        spec_dec_digits(v)
    } else {
        "-"@ + spec_dec_digits(-v)
    }
}

fn push_dec_digits(v: u64, out: &mut String)
    ensures
        final(out)@ == old(out)@ + spec_dec_digits(v as int),
    decreases v,
{
    if v <= 9 {
        out.append(hex_digit_str(v));
    } else {
        push_dec_digits(v / 10, out);
        out.append(hex_digit_str(v % 10));
        proof {
            assert(old(out)@ + spec_dec_digits(v as int / 10) + seq![
                hex_digit_char(v as int % 10),
            ] =~= old(out)@ + spec_dec_digits(v as int));
        }
    }
}

/// Prints a signed number (an OS error code) in decimal.
pub fn signed_dec_i32(v: i32) -> (r: String)
    ensures
        r@ == spec_signed_dec(v as int),
{
    if v >= 0 {
        let mut s = String::new();
        push_dec_digits(v as u64, &mut s);
        proof {
            assert(s@ =~= spec_signed_dec(v as int));
        }
        s
    } else {
        let mut s = String::from_str("-");
        let m = -(v as i64);
        push_dec_digits(m as u64, &mut s);
        proof {
            assert(s@ =~= spec_signed_dec(v as int));
        }
        s
    }
}

/// Prints `v` as the session does: `0x` plus the lower-case hexadecimal
/// numeral, zero-padded to at least fourteen digits.
pub fn hex_field(v: u64) -> (r: String)
    ensures
        r@ == spec_hex_field(v),
{
    let mut s = String::from_str("0x");
    let d = count_hex_digits(v);
    let mut k = d;
    while k < 14
        invariant
            d <= k <= 14 || (d > 14 && k == d),
            d == spec_hex_digits(v as int).len(),
            s@ == "0x"@ + spec_zeros((k - d) as nat),
        decreases 14 - k,
    {
        s.append("0");
        proof {
            reveal_strlit("0");
            assert(s@ =~= "0x"@ + spec_zeros((k + 1 - d) as nat));
        }
        k = k + 1;
    }
    proof {
        assert(s@ =~= if d >= 14 {
            "0x"@
        } else {
            "0x"@ + spec_zeros((14 - d) as nat)
        });
    }
    push_hex_digits(v, &mut s);
    proof {
        if d >= 14 {
            assert(s@ =~= spec_hex_field(v));
        } else {
            assert(s@ =~= spec_hex_field(v));
        }
    }
    s
}

/// Builds the report line for one stop from the program counter, the raw
/// word at it, and the disassembled mnemonic.
pub fn render_stop_line(pc: u64, word: u64, mnemonic: &str) -> (r: String)
    ensures
        r@ == spec_stop_line(pc, word, mnemonic@),
{
    let mut s = hex_field(pc);
    s.append(":    ");
    let w = hex_field(word);
    s.append(w.as_str());
    s.append(".    ");
    s.append(mnemonic);
    proof {
        assert(s@ =~= spec_stop_line(pc, word, mnemonic@));
    }
    s
}

} // verus!
