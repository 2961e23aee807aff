//! Hex-token parsing and hex formatting.
//!
//! Adapters echo prompts and spacing inconsistently, so a response is read as
//! a stream of whitespace/prompt-separated tokens; only tokens that are
//! exactly two hexadecimal digits carry payload bytes, everything else is
//! dropped. The reverse direction renders raw bytes as an upper-case
//! space-separated hex dump.

use vstd::prelude::*;
use vstd::string::StrSliceExecFns;
use vstd::string::StringExecFns;
use vstd::string::StringSliceAdditionalSpecFns;

verus! {

/// Token separators: ASCII whitespace, line terminators, and the `>` prompt.
pub open spec fn is_separator(b: u8) -> bool {
    b == 0x20 || b == 0x09 || b == 0x0a || b == 0x0b || b == 0x0c || b == 0x0d || b == 0x3e
}

/// Whether a byte is an ASCII hexadecimal digit, upper or lower case.
pub open spec fn is_hex_digit(b: u8) -> bool {
    (0x30 <= b && b <= 0x39) || (0x41 <= b && b <= 0x46) || (0x61 <= b && b <= 0x66)
}

/// The numeric value of a hexadecimal digit byte (0 on a non-digit).
pub open spec fn hex_value(b: u8) -> u8 {
    if 0x30 <= b && b <= 0x39 {
        (b - 0x30) as u8
    } else if 0x41 <= b && b <= 0x46 {
        ((b - 0x41) + 10) as u8
    } else if 0x61 <= b && b <= 0x66 {
        ((b - 0x61) + 10) as u8
    } else {
        0
    }
}

/// Length of the token starting at the head of `bytes`: the longest prefix
/// free of separators.
pub open spec fn token_len(bytes: Seq<u8>) -> nat
    decreases bytes.len(),
{
    if bytes.len() == 0 || is_separator(bytes[0]) {
        0
    } else {
        (token_len(bytes.drop_first()) + 1) as nat
    }
}

/// The token starting at the head of `bytes` never runs past the end.
pub proof fn lemma_token_len_le(bytes: Seq<u8>)
    ensures
        token_len(bytes) <= bytes.len(),
    decreases bytes.len(),
{
    if bytes.len() != 0 && !is_separator(bytes[0]) {
        lemma_token_len_le(bytes.drop_first());
    }
}

/// The token at the head of `bytes` has length `n` exactly when the first `n`
/// bytes are not separators and byte `n` (if any) is one.
pub proof fn lemma_token_len_run(bytes: Seq<u8>, n: int)
    requires
        0 <= n <= bytes.len(),
        forall|k: int| 0 <= k < n ==> !is_separator(bytes[k]),
        n == bytes.len() || is_separator(bytes[n]),
    ensures
        token_len(bytes) == n,
    decreases n,
{
    if n == 0 {
    } else {
        assert(!is_separator(bytes[0]));
        let rest = bytes.drop_first();
        assert forall|k: int| 0 <= k < n - 1 implies !is_separator(rest[k]) by {
            assert(rest[k] == bytes[k + 1]);
        }
        lemma_token_len_run(rest, n - 1);
    }
}

/// The payload byte carried by the token at the head of `bytes`, if that
/// token is exactly two hexadecimal digits.
pub open spec fn token_byte(bytes: Seq<u8>) -> Option<u8> {
    if token_len(bytes) == 2 && is_hex_digit(bytes[0]) && is_hex_digit(bytes[1]) {
        Some((hex_value(bytes[0]) * 16 + hex_value(bytes[1])) as u8)
    } else {
        None
    }
}

/// The bytes denoted by the hex tokens of `bytes`, in order: split on
/// separators, keep the tokens of exactly two hexadecimal digits, and read
/// each as one byte.
pub open spec fn spec_hex_tokens(bytes: Seq<u8>) -> Seq<u8>
    decreases bytes.len(),
    via spec_hex_tokens_decreases
{
    if bytes.len() == 0 {
        seq![]
    } else if is_separator(bytes[0]) {
        spec_hex_tokens(bytes.drop_first())
    } else {
        let rest = spec_hex_tokens(bytes.skip(token_len(bytes) as int));
        match token_byte(bytes) {
            Some(v) => seq![v] + rest,
            None => rest,
        }
    }
}

#[via_fn]
proof fn spec_hex_tokens_decreases(bytes: Seq<u8>) {
    lemma_token_len_le(bytes);
}

/// Tells a separator byte apart from a token byte.
fn is_separator_ex(b: u8) -> (r: bool)
    ensures
        r == is_separator(b),
{
    b == 0x20 || b == 0x09 || b == 0x0a || b == 0x0b || b == 0x0c || b == 0x0d || b == 0x3e
}

/// Reads one hexadecimal digit byte; `None` on any other byte.
pub fn hex_nibble(b: u8) -> (r: Option<u8>)
    ensures
        r is Some <==> is_hex_digit(b),
        r matches Some(v) ==> v == hex_value(b) && v < 16,
{
    if 0x30 <= b && b <= 0x39 {
        Some(b - 0x30)
    } else if 0x41 <= b && b <= 0x46 {
        Some((b - 0x41) + 10)
    } else if 0x61 <= b && b <= 0x66 {
        Some((b - 0x61) + 10)
    } else {
        None
    }
}

/// Splits response text on whitespace and `>` prompts and returns the bytes
/// of the tokens that are exactly two hexadecimal digits; all other tokens
/// are dropped.
pub fn parse_hex_tokens(raw: &str) -> (r: Vec<u8>)
    ensures
        r@ == spec_hex_tokens(raw.spec_bytes()),
{
    let bytes = raw.as_bytes();
    let mut out: Vec<u8> = Vec::new();
    let mut i: usize = 0;
    proof {
        assert(bytes@.skip(0) =~= bytes@);
        assert(out@ + spec_hex_tokens(bytes@) =~= spec_hex_tokens(bytes@));
    }
    while i < bytes.len()
        invariant
            bytes@ == raw.spec_bytes(),
            i <= bytes@.len(),
            spec_hex_tokens(bytes@) == out@ + spec_hex_tokens(bytes@.skip(i as int)),
        decreases bytes@.len() - i,
    {
        if is_separator_ex(bytes[i]) {
            proof {
                assert(bytes@.skip(i as int).drop_first() =~= bytes@.skip(i as int + 1));
            }
            i = i + 1;
        } else {
            let ghost head = bytes@.skip(i as int);
            let mut j: usize = i + 1;
            while j < bytes.len() && !is_separator_ex(bytes[j])
                invariant
                    bytes@ == raw.spec_bytes(),
                    i < j <= bytes@.len(),
                    forall|k: int| i <= k < j ==> !is_separator(bytes@[k]),
                decreases bytes@.len() - j,
            {
                j = j + 1;
            }
            proof {
                assert forall|k: int| 0 <= k < j - i implies !is_separator(head[k]) by {
                    assert(head[k] == bytes@[i + k]);
                }
                if j < bytes@.len() {
                    assert(head[j - i] == bytes@[j as int]);
                }
                lemma_token_len_run(head, j - i);
                assert(head.skip(j - i) =~= bytes@.skip(j as int));
            }
            if j - i == 2 {
                let hi = hex_nibble(bytes[i]);
                let lo = hex_nibble(bytes[i + 1]);
                proof {
                    assert(head[0] == bytes@[i as int]);
                    assert(head[1] == bytes@[i as int + 1]);
                }
                match (hi, lo) {
                    (Some(h), Some(l)) => {
                        let v = h * 16 + l;
                        proof {
                            assert(token_byte(head) == Some(v));
                        }
                        out.push(v);
                        proof {
                            assert(out@ =~= out@.subrange(0, out@.len() - 1) + seq![v]);
                            assert(out@.subrange(0, out@.len() - 1) + (seq![v] + spec_hex_tokens(
                                bytes@.skip(j as int),
                            )) =~= out@ + spec_hex_tokens(bytes@.skip(j as int)));
                        }
                    },
                    _ => {
                        proof {
                            assert(token_byte(head) is None);
                        }
                    },
                }
            } else {
                proof {
                    assert(token_byte(head) is None);
                }
            }
            i = j;
        }
    }
    proof {
        assert(bytes@.skip(i as int) =~= Seq::<u8>::empty());
        assert(out@ =~= spec_hex_tokens(bytes@));
    }
    out
}

/// The upper-case hexadecimal digit for a value below sixteen.
pub open spec fn hex_char_of(n: u8) -> char {
    if n == 0 {
        '0'
    } else if n == 1 {
        '1'
    } else if n == 2 {
        '2'
    } else if n == 3 {
        '3'
    } else if n == 4 {
        '4'
    } else if n == 5 {
        '5'
    } else if n == 6 {
        '6'
    } else if n == 7 {
        '7'
    } else if n == 8 {
        '8'
    } else if n == 9 {
        '9'
    } else if n == 10 {
        'A'
    } else if n == 11 {
        'B'
    } else if n == 12 {
        'C'
    } else if n == 13 {
        'D'
    } else if n == 14 {
        'E'
    } else {
        'F'
    }
}

/// The two hexadecimal digits of one byte.
pub open spec fn spec_hex_pair(b: u8) -> Seq<char> {
    seq![hex_char_of(b / 16), hex_char_of(b % 16)]
}

/// Hex dump continuation: a space, a byte's digits, and the rest.
pub open spec fn spec_hex_tail(bytes: Seq<u8>) -> Seq<char>
    decreases bytes.len(),
{
    if bytes.len() == 0 {
        seq![]
    } else {
        seq![' '] + spec_hex_pair(bytes[0]) + spec_hex_tail(bytes.drop_first())
    }
}

/// The space-separated upper-case hex dump of a byte sequence.
pub open spec fn spec_hex_dump(bytes: Seq<u8>) -> Seq<char> {
    if bytes.len() == 0 {
        seq![]
    } else {
        spec_hex_pair(bytes[0]) + spec_hex_tail(bytes.drop_first())
    }
}

/// The single hexadecimal digit for a value below sixteen.
fn hex_digit_str(n: u8) -> (r: &'static str)
    requires
        n < 16,
    ensures
        r@ == seq![hex_char_of(n)],
{
    let r = match n {
        0 => "0",
        1 => "1",
        2 => "2",
        3 => "3",
        4 => "4",
        5 => "5",
        6 => "6",
        7 => "7",
        8 => "8",
        9 => "9",
        10 => "A",
        11 => "B",
        12 => "C",
        13 => "D",
        14 => "E",
        _ => "F",
    };
    proof {
        reveal_strlit("0");
        reveal_strlit("1");
        reveal_strlit("2");
        reveal_strlit("3");
        reveal_strlit("4");
        reveal_strlit("5");
        reveal_strlit("6");
        reveal_strlit("7");
        reveal_strlit("8");
        reveal_strlit("9");
        reveal_strlit("A");
        reveal_strlit("B");
        reveal_strlit("C");
        reveal_strlit("D");
        reveal_strlit("E");
        reveal_strlit("F");
        assert(r@ =~= seq![hex_char_of(n)]);
    }
    r
}

/// Renders raw bytes as a space-separated, upper-case hex dump
/// (`"1A F8"`-style), as the raw-capture fallback logs them.
pub fn bytes_to_hex(bytes: &[u8]) -> (r: String)
    ensures
        r@ == spec_hex_dump(bytes@),
{
    let mut out = String::new();
    let mut i: usize = 0;
    while i < bytes.len()
        invariant
            i <= bytes@.len(),
            i == 0 ==> out@ == Seq::<char>::empty(),
            i > 0 ==> spec_hex_dump(bytes@) == out@ + spec_hex_tail(bytes@.skip(i as int)),
        decreases bytes@.len() - i,
    {
        let b = bytes[i];
        if i > 0 {
            proof {
                reveal_strlit(" ");
            }
            out.append(" ");
        }
        out.append(hex_digit_str(b / 16));
        out.append(hex_digit_str(b % 16));
        proof {
            assert(bytes@.skip(i as int).drop_first() =~= bytes@.skip(i as int + 1));
            assert(bytes@.skip(i as int)[0] == bytes@[i as int]);
            if i == 0 {
                assert(out@ =~= spec_hex_pair(bytes@[0]));
                assert(bytes@.drop_first() =~= bytes@.skip(1));
            } else {
                assert(spec_hex_tail(bytes@.skip(i as int)) =~= seq![' '] + spec_hex_pair(
                    bytes@[i as int],
                ) + spec_hex_tail(bytes@.skip(i as int + 1)));
            }
        }
        i = i + 1;
    }
    proof {
        if bytes@.len() == 0 {
            assert(out@ =~= spec_hex_dump(bytes@));
        } else {
            assert(bytes@.skip(i as int) =~= Seq::<u8>::empty());
            assert(out@ =~= spec_hex_dump(bytes@));
        }
    }
    out
}

} // verus!
