//! Operator commands and their grammar.  A line is split on single spaces;
//! the first token selects the verb: `next`, `cont`, `break <hex-address>`
//! (no `0x` prefix) or `break fn:<name>`.  Anything else is a parse error
//! surfaced as a message, never a panic, and never a change of session state.

use vstd::prelude::*;

verus! {

/// One parsed operator command, discarded after dispatch.
#[derive(Debug, Clone)]
pub enum Command {
    Noop,
    Next,
    Cont,
    BreakAddr(u64),
    BreakFunction(String),
}

/// The mathematical outcome of parsing a line: a command, with the function
/// name as a character sequence, or a failure carrying the message.
pub enum ParseOutcome {
    Noop,
    Next,
    Cont,
    BreakAddr(u64),
    BreakFunction(Seq<char>),
    Fail(Seq<char>),
}

/// The outcome a concrete command stands for.
pub open spec fn cmd_view(c: Command) -> ParseOutcome {
    match c {
        Command::Noop => ParseOutcome::Noop,
        Command::Next => ParseOutcome::Next,
        Command::Cont => ParseOutcome::Cont,
        Command::BreakAddr(a) => ParseOutcome::BreakAddr(a),
        Command::BreakFunction(s) => ParseOutcome::BreakFunction(s@),
    }
}

/// The index of the first occurrence of `c` at or after `from`, or the length
/// if there is none.
pub open spec fn spec_find_char(s: Seq<char>, c: char, from: int) -> int
    decreases s.len() - from,
{
    if from < 0 || from >= s.len() {
        s.len() as int
    } else if s[from] == c {
        from
    } else {
        spec_find_char(s, c, from + 1)
    }
}

pub open spec fn is_hex_digit(c: char) -> bool {
    ('0' as u32 <= c as u32 <= '9' as u32) || ('a' as u32 <= c as u32 <= 'f' as u32) || (
    'A' as u32 <= c as u32 <= 'F' as u32)
}

pub open spec fn hex_val(c: char) -> int {
    if '0' as u32 <= c as u32 <= '9' as u32 {
        c as u32 - '0' as u32
    } else if 'a' as u32 <= c as u32 <= 'f' as u32 {
        c as u32 - 'a' as u32 + 10
    } else {
        c as u32 - 'A' as u32 + 10
    }
}

/// Why a numeric argument failed to parse, mirroring the distinctions the
/// operator sees.
#[derive(Clone, Copy, Debug, PartialEq, Eq, Structural)]
pub enum NumError {
    Empty,
    InvalidDigit,
    Overflow,
}

/// Left-to-right scan of hexadecimal digits: the first bad character or the
/// first overflow decides the error.
pub open spec fn hex_scan(s: Seq<char>, i: int, acc: u64) -> Result<u64, NumError>
    decreases s.len() - i,
{
    if i < 0 || i >= s.len() {
        Ok(acc)
    } else if !is_hex_digit(s[i]) {
        Err(NumError::InvalidDigit)
    } else if acc as int * 16 + hex_val(s[i]) > u64::MAX {
        Err(NumError::Overflow)
    } else {
        hex_scan(s, i + 1, (acc as int * 16 + hex_val(s[i])) as u64)
    }
}

/// A hexadecimal numeral with an optional leading `+`, as the session accepts
/// for a raw breakpoint address.
pub open spec fn spec_parse_hex(s: Seq<char>) -> Result<u64, NumError> {
    if s.len() == 0 {
        Err(NumError::Empty)
    } else {
        let digits = if s[0] == '+' {
            s.skip(1)
        } else {
            s
        };
        if digits.len() == 0 {
            Err(NumError::Empty)
        } else {
            hex_scan(digits, 0, 0)
        }
    }
}

pub open spec fn num_error_msg(e: NumError) -> Seq<char> {
    match e {
        NumError::Empty => "cannot parse integer from empty string"@,
        NumError::InvalidDigit => "invalid digit found in string"@,
        NumError::Overflow => "number too large to fit in target type"@,
    }
}

/// What parsing a whole input line yields.  The first space-delimited token
/// selects the verb; a `break` verb reads its argument from the second token.
pub open spec fn spec_parse(s: Seq<char>) -> ParseOutcome {
    let sp0 = spec_find_char(s, ' ', 0);
    let tok0 = s.take(sp0);
    if tok0 == "next"@ {
        ParseOutcome::Next
    } else if tok0 == "cont"@ {
        ParseOutcome::Cont
    } else if tok0 == "break"@ {
        if sp0 == s.len() {
            ParseOutcome::Fail("'break' command needs argument"@)
        } else {
            let sp1 = spec_find_char(s, ' ', sp0 + 1);
            let arg = s.subrange(sp0 + 1, sp1);
            if arg.len() >= 3 && arg.take(3) == "fn:"@ {
                ParseOutcome::BreakFunction(arg.skip(3))
            } else {
                match spec_parse_hex(arg) {
                    Ok(a) => ParseOutcome::BreakAddr(a),
                    Err(e) => ParseOutcome::Fail(num_error_msg(e)),
                }
            }
        }
    } else {
        ParseOutcome::Fail("Invalid command: '"@ + tok0 + "'"@)
    }
}

proof fn lemma_find_char_advance(s: Seq<char>, c: char, from: int, k: int)
    requires
        0 <= from <= k <= s.len(),
        forall|m: int| from <= m < k ==> s[m] != c,
    ensures
        spec_find_char(s, c, from) == spec_find_char(s, c, k),
    decreases k - from,
{
    if from < k {
        lemma_find_char_advance(s, c, from + 1, k);
    }
}

/// The index of the first space at or after `from`, or the character length
/// of `s` if there is none.
fn find_space(s: &str, from: usize) -> (r: usize)
    requires
        from <= s@.len(),
    ensures
        r == spec_find_char(s@, ' ', from as int),
        from <= r <= s@.len(),
        r < s@.len() ==> s@[r as int] == ' ',
        forall|m: int| from <= m < r ==> s@[m] != ' ',
{
    let n = s.unicode_len();
    let mut k = from;
    while k < n
        invariant
            from <= k <= n,
            n == s@.len(),
            forall|m: int| from <= m < k ==> s@[m] != ' ',
        decreases n - k,
    {
        if s.get_char(k) == ' ' {
            proof {
                lemma_find_char_advance(s@, ' ', from as int, k as int);
            }
            return k;
        }
        k = k + 1;
    }
    proof {
        lemma_find_char_advance(s@, ' ', from as int, n as int);
    }
    n
}

/// Character-for-character string equality.
fn str_eq(a: &str, b: &str) -> (r: bool)
    ensures
        r == (a@ == b@),
{
    let na = a.unicode_len();
    let nb = b.unicode_len();
    if na != nb {
        proof {
            if a@ == b@ {
                assert(a@.len() == b@.len());
            }
        }
        return false;
    }
    let mut k: usize = 0;
    while k < na
        invariant
            k <= na,
            na == a@.len(),
            na == b@.len(),
            forall|m: int| 0 <= m < k ==> a@[m] == b@[m],
        decreases na - k,
    {
        if a.get_char(k) != b.get_char(k) {
            proof {
                if a@ == b@ {
                    assert(a@[k as int] == b@[k as int]);
                }
            }
            return false;
        }
        k = k + 1;
    }
    proof {
        assert(a@ =~= b@);
    }
    true
}

/// Parses the digits of `s` from position `start` to the end as hexadecimal.
fn hex_digits(s: &str, start: usize, ghost_digits: Ghost<Seq<char>>) -> (r: Result<u64, NumError>)
    requires
        start <= s@.len(),
        ghost_digits@ == s@.skip(start as int),
    ensures
        r == hex_scan(ghost_digits@, 0, 0),
{
    let n = s.unicode_len();
    let mut acc: u64 = 0;
    let mut k = start;
    while k < n
        invariant
            start <= k <= n,
            n == s@.len(),
            ghost_digits@ == s@.skip(start as int),
            hex_scan(ghost_digits@, 0, 0) == hex_scan(ghost_digits@, k - start, acc),
        decreases n - k,
    {
        let c = s.get_char(k);
        proof {
            assert(ghost_digits@[k - start] == s@[k as int]);
        }
        let cu = c as u32;
        let v: u32 = if 48 <= cu && cu <= 57 {
            cu - 48
        } else if 97 <= cu && cu <= 102 {
            cu - 97 + 10
        } else if 65 <= cu && cu <= 70 {
            cu - 65 + 10
        } else {
            return Err(NumError::InvalidDigit);
        };
        assert(is_hex_digit(c) && v == hex_val(c));
        if acc >= 0x1000_0000_0000_0000u64 {
            assert(acc as int * 16 + hex_val(c) > u64::MAX);
            return Err(NumError::Overflow);
        }
        assert(acc as int * 16 + hex_val(c) <= u64::MAX);
        acc = acc * 16 + (v as u64);
        k = k + 1;
    }
    assert(hex_scan(ghost_digits@, n - start, acc) == Ok::<u64, NumError>(acc));
    Ok(acc)
}

/// Parses one numeric `break` argument as hexadecimal.
fn parse_hex(arg: &str) -> (r: Result<u64, NumError>)
    ensures
        r == spec_parse_hex(arg@),
{
    let n = arg.unicode_len();
    if n == 0 {
        return Err(NumError::Empty);
    }
    let start: usize = if arg.get_char(0) == '+' {
        1
    } else {
        0
    };
    if n == start {
        return Err(NumError::Empty);
    }
    if start == 0 {
        proof {
            assert(arg@.skip(0) =~= arg@);
        }
    }
    hex_digits(arg, start, Ghost(arg@.skip(start as int)))
}

fn num_error_message(e: NumError) -> (r: String)
    ensures
        r@ == num_error_msg(e),
{
    match e {
        NumError::Empty => String::from_str("cannot parse integer from empty string"),
        NumError::InvalidDigit => String::from_str("invalid digit found in string"),
        NumError::Overflow => String::from_str("number too large to fit in target type"),
    }
}

/// Parses one line of operator input into a command, or a reportable message
/// that does not advance the session.
pub fn parse_command(line: &str) -> (r: Result<Command, String>)
    ensures
        match r {
            Ok(c) => spec_parse(line@) == cmd_view(c),
            Err(m) => spec_parse(line@) == ParseOutcome::Fail(m@),
        },
{
    let n = line.unicode_len();
    let sp0 = find_space(line, 0);
    let tok0 = line.substring_char(0, sp0);
    proof {
        assert(tok0@ == line@.take(sp0 as int));
    }
    if str_eq(tok0, "next") {
        Ok(Command::Next)
    } else if str_eq(tok0, "cont") {
        Ok(Command::Cont)
    } else if str_eq(tok0, "break") {
        if sp0 == n {
            return Err(String::from_str("'break' command needs argument"));
        }
        let sp1 = find_space(line, sp0 + 1);
        let arg = line.substring_char(sp0 + 1, sp1);
        proof {
            assert(arg@ == line@.subrange(sp0 + 1, sp1 as int));
        }
        let arg_len = arg.unicode_len();
        if arg_len >= 3 && str_eq(arg.substring_char(0, 3), "fn:") {
            let name = arg.substring_char(3, arg_len).to_owned();
            proof {
                assert(arg@.subrange(0, 3) == arg@.take(3));
                assert(name@ =~= arg@.skip(3));
            }
            Ok(Command::BreakFunction(name))
        } else {
            proof {
                if arg@.len() >= 3 {
                    assert(arg@.subrange(0, 3) == arg@.take(3));
                }
            }
            match parse_hex(arg) {
                Ok(a) => Ok(Command::BreakAddr(a)),
                Err(e) => Err(num_error_message(e)),
            }
        }
    } else {
        let m = String::from_str("Invalid command: '").concat(tok0).concat("'");
        Err(m)
    }
}

} // verus!
