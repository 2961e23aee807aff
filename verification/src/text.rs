//! Text primitives for the adapter protocol.
//!
//! Adapter responses arrive as text; the protocol decisions on them (is the
//! response complete, did the adapter accept a configuration command, which
//! operating mode was requested) are byte-level scans, stated here over the
//! UTF-8 bytes of the string view.

use vstd::prelude::*;
use vstd::string::StringExecFns;
use vstd::string::StringSliceAdditionalSpecFns;
use vstd::utf8::encode_utf8_decode_utf8;

verus! {

/// String equality: two `&str` are equal exactly when their views are.
pub fn str_eq(a: &str, b: &str) -> (r: bool)
    ensures
        r == (a@ == b@),
{
    let ab = a.as_bytes();
    let bb = b.as_bytes();
    proof {
        if a@ == b@ {
            assert(ab@ == bb@);
        }
    }
    if ab.len() != bb.len() {
        return false;
    }
    let mut i: usize = 0;
    while i < ab.len()
        invariant
            ab@ == a.spec_bytes(),
            bb@ == b.spec_bytes(),
            ab@.len() == bb@.len(),
            i <= ab@.len(),
            forall|j: int| 0 <= j < i ==> ab@[j] == bb@[j],
        decreases ab@.len() - i,
    {
        if ab[i] != bb[i] {
            proof {
                if a@ == b@ {
                    assert(ab@ =~= bb@);
                }
            }
            return false;
        }
        i = i + 1;
    }
    proof {
        assert(ab@ =~= bb@);
        encode_utf8_decode_utf8(a@);
        encode_utf8_decode_utf8(b@);
    }
    true
}

/// The adapter's prompt character, as a byte.
pub open spec fn prompt_byte() -> u8 {
    0x3e
}

/// Whether the accumulated response text holds a `>` prompt, which ends a
/// command/response exchange.
pub open spec fn spec_contains_prompt(bytes: Seq<u8>) -> bool {
    exists|i: int| 0 <= i < bytes.len() && bytes[i] == prompt_byte()
}

/// Scans response text for the `>` prompt character.
pub fn contains_prompt(text: &str) -> (r: bool)
    ensures
        r == spec_contains_prompt(text.spec_bytes()),
{
    let bytes = text.as_bytes();
    let mut i: usize = 0;
    while i < bytes.len()
        invariant
            bytes@ == text.spec_bytes(),
            i <= bytes@.len(),
            forall|j: int| 0 <= j < i ==> bytes@[j] != prompt_byte(),
        decreases bytes@.len() - i,
    {
        if bytes[i] == 0x3e {
            return true;
        }
        i = i + 1;
    }
    false
}

/// Whether a byte is the letter `O`, in either case.
pub open spec fn is_letter_o(b: u8) -> bool {
    b == 0x4f || b == 0x6f
}

/// Whether a byte is the letter `K`, in either case.
pub open spec fn is_letter_k(b: u8) -> bool {
    b == 0x4b || b == 0x6b
}

/// Whether a configuration command's response counts as accepted: after case
/// folding it holds the word `OK`, or it holds a `>` prompt.
pub open spec fn spec_init_response_ok(bytes: Seq<u8>) -> bool {
    (exists|i: int|
        0 <= i && i + 1 < bytes.len() && is_letter_o(bytes[i]) && is_letter_k(bytes[i + 1]))
        || spec_contains_prompt(bytes)
}

/// Validates one configuration command's response: accepted exactly when the
/// text holds `OK` (any case) or a `>` prompt.
pub fn init_response_ok(response: &str) -> (r: bool)
    ensures
        r == spec_init_response_ok(response.spec_bytes()),
{
    let bytes = response.as_bytes();
    let mut i: usize = 0;
    while i < bytes.len()
        invariant
            bytes@ == response.spec_bytes(),
            i <= bytes@.len(),
            forall|j: int| 0 <= j < i ==> bytes@[j] != prompt_byte(),
            forall|j: int|
                0 <= j < i && j + 1 < bytes@.len() ==> !(is_letter_o(bytes@[j]) && is_letter_k(
                    bytes@[j + 1],
                )),
        decreases bytes@.len() - i,
    {
        if bytes[i] == 0x3e {
            return true;
        }
        if i + 1 < bytes.len() && (bytes[i] == 0x4f || bytes[i] == 0x6f) && (bytes[i + 1] == 0x4b
            || bytes[i + 1] == 0x6b) {
            proof {
                let w = i as int;
                assert(is_letter_o(bytes@[w]) && is_letter_k(bytes@[w + 1]));
            }
            return true;
        }
        i = i + 1;
    }
    false
}

/// ASCII lower-case folding of one byte.
pub open spec fn fold_lower(b: u8) -> u8 {
    if 0x41 <= b && b <= 0x5a {
        (b + 0x20) as u8
    } else {
        b
    }
}

/// ASCII lower-case folding of a byte sequence.
pub open spec fn spec_fold_lower(bytes: Seq<u8>) -> Seq<u8> {
    bytes.map_values(|b: u8| fold_lower(b))
}

/// Case-insensitive (ASCII) string equality.
pub fn eq_ignore_ascii_case(a: &str, b: &str) -> (r: bool)
    ensures
        r == (spec_fold_lower(a.spec_bytes()) == spec_fold_lower(b.spec_bytes())),
{
    let ab = a.as_bytes();
    let bb = b.as_bytes();
    if ab.len() != bb.len() {
        proof {
            assert(spec_fold_lower(ab@).len() != spec_fold_lower(bb@).len());
        }
        return false;
    }
    let mut i: usize = 0;
    while i < ab.len()
        invariant
            ab@ == a.spec_bytes(),
            bb@ == b.spec_bytes(),
            ab@.len() == bb@.len(),
            i <= ab@.len(),
            forall|j: int| 0 <= j < i ==> fold_lower(ab@[j]) == fold_lower(bb@[j]),
        decreases ab@.len() - i,
    {
        let ca = if 0x41 <= ab[i] && ab[i] <= 0x5a {
            ab[i] + 0x20
        } else {
            ab[i]
        };
        let cb = if 0x41 <= bb[i] && bb[i] <= 0x5a {
            bb[i] + 0x20
        } else {
            bb[i]
        };
        if ca != cb {
            proof {
                assert(spec_fold_lower(ab@)[i as int] != spec_fold_lower(bb@)[i as int]);
            }
            return false;
        }
        i = i + 1;
    }
    proof {
        assert(spec_fold_lower(ab@) =~= spec_fold_lower(bb@));
    }
    true
}

/// The wire form of a command: the text with its carriage-return terminator.
pub fn command_payload(command: &str) -> (r: String)
    ensures
        r@ == command@ + "\r"@,
{
    String::from_str(command).concat("\r")
}

/// Settles a command exchange at the read deadline: text accumulated up to
/// the timeout counts as the response only when there is some; an empty
/// accumulation is a failure with a non-empty no-response message.
pub fn finish_response(collected: String) -> (r: Result<String, String>)
    ensures
        r is Err <==> collected@.len() == 0,
        r matches Ok(s) ==> s@ == collected@,
        r matches Err(e) ==> e@ == "No response from adapter."@ && e@.len() > 0,
{
    proof {
        reveal_strlit("No response from adapter.");
    }
    if collected.as_str().is_empty() {
        Err(String::from_str("No response from adapter."))
    } else {
        Ok(collected)
    }
}

/// Whether a requested connection mode selects the simulator: the mode text,
/// case folded, reads `simulator`.
pub fn is_simulator_mode(mode: &str) -> (r: bool)
    ensures
        r == (spec_fold_lower(mode.spec_bytes()) == spec_fold_lower("simulator".spec_bytes())),
{
    eq_ignore_ascii_case(mode, "simulator")
}

} // verus!
