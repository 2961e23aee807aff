//! Standard OBD-II PIDs: the fixed key table, positive-response marker
//! search, and the decode formulas.
//!
//! The table is deliberately closed: manufacturer-specific channels go
//! through the channel catalog instead.

use vstd::prelude::*;
use vstd::slice::slice_subrange;
use vstd::string::StringSliceAdditionalSpecFns;
use crate::hex::hex_nibble;
use crate::hex::hex_value;
use crate::hex::is_hex_digit;
use crate::hex::spec_hex_tokens;
use crate::text::str_eq;
use crate::value::PhysValue;

verus! {

/// The PID request command for a parameter key, for the fixed table of
/// standard channels; `None` for a key the table does not know.
pub open spec fn spec_pid_for_key(key: Seq<char>) -> Option<Seq<char>> {
    if key == "engine-rpm"@ {
        Some("010C"@)
    } else if key == "throttle-position"@ {
        Some("0111"@)
    } else if key == "coolant-temp"@ {
        Some("0105"@)
    } else if key == "iat"@ {
        Some("010F"@)
    } else if key == "vehicle-speed"@ {
        Some("010D"@)
    } else if key == "timing-avg"@ {
        Some("010E"@)
    } else if key == "boost-actual"@ || key == "boost-target"@ {
        Some("010B"@)
    } else if key == "afr-bank1"@ || key == "afr-bank2"@ {
        Some("0144"@)
    } else if key == "oil-temp"@ {
        Some("015C"@)
    } else if key == "fuel-pressure"@ {
        Some("010A"@)
    } else {
        None
    }
}

/// Looks a parameter key up in the fixed table of standard PIDs.
pub fn pid_for_key(key: &str) -> (r: Option<&'static str>)
    ensures
        r is Some <==> spec_pid_for_key(key@) is Some,
        r matches Some(p) ==> spec_pid_for_key(key@) == Some(p@),
{
    if str_eq(key, "engine-rpm") {
        Some("010C")
    } else if str_eq(key, "throttle-position") {
        Some("0111")
    } else if str_eq(key, "coolant-temp") {
        Some("0105")
    } else if str_eq(key, "iat") {
        Some("010F")
    } else if str_eq(key, "vehicle-speed") {
        Some("010D")
    } else if str_eq(key, "timing-avg") {
        Some("010E")
    } else if str_eq(key, "boost-actual") || str_eq(key, "boost-target") {
        Some("010B")
    } else if str_eq(key, "afr-bank1") || str_eq(key, "afr-bank2") {
        Some("0144")
    } else if str_eq(key, "oil-temp") {
        Some("015C")
    } else if str_eq(key, "fuel-pressure") {
        Some("010A")
    } else {
        None
    }
}

/// The PID code of a request command: the command is four characters and its
/// last two are the code's hexadecimal digits (`"010C"` carries code `0x0C`).
pub open spec fn spec_pid_code(cmd_bytes: Seq<u8>) -> Option<u8> {
    if cmd_bytes.len() == 4 && is_hex_digit(cmd_bytes[2]) && is_hex_digit(cmd_bytes[3]) {
        Some((hex_value(cmd_bytes[2]) * 16 + hex_value(cmd_bytes[3])) as u8)
    } else {
        None
    }
}

/// Reads the PID code out of a request command string.
pub fn pid_code_of_command(cmd: &str) -> (r: Option<u8>)
    ensures
        r == spec_pid_code(cmd.spec_bytes()),
{
    let bytes = cmd.as_bytes();
    if bytes.len() != 4 {
        return None;
    }
    let hi = hex_nibble(bytes[2]);
    let lo = hex_nibble(bytes[3]);
    match (hi, lo) {
        (Some(h), Some(l)) => Some(h * 16 + l),
        _ => None,
    }
}

/// The payload following the first positive-response marker `0x41, pid`:
/// everything after the first such adjacent byte pair, or `None` when the
/// marker never occurs.
pub open spec fn spec_find_pid_payload(bytes: Seq<u8>, pid: u8) -> Option<Seq<u8>>
    decreases bytes.len(),
{
    if bytes.len() < 2 {
        None
    } else if bytes[0] == 0x41 && bytes[1] == pid {
        Some(bytes.skip(2))
    } else {
        spec_find_pid_payload(bytes.drop_first(), pid)
    }
}

/// Locates the first positive-response marker `{0x41, pid}` and returns the
/// bytes that follow it.
pub fn find_pid_payload<'a>(bytes: &'a [u8], pid: u8) -> (r: Option<&'a [u8]>)
    ensures
        r is Some <==> spec_find_pid_payload(bytes@, pid) is Some,
        r matches Some(p) ==> spec_find_pid_payload(bytes@, pid) == Some(p@),
{
    if bytes.len() < 2 {
        return None;
    }
    let mut i: usize = 0;
    proof {
        assert(bytes@.skip(0) =~= bytes@);
    }
    while i < bytes.len() - 1
        invariant
            bytes@.len() >= 2,
            i <= bytes@.len(),
            spec_find_pid_payload(bytes@, pid) == spec_find_pid_payload(
                bytes@.skip(i as int),
                pid,
            ),
        decreases bytes@.len() - i,
    {
        proof {
            assert(bytes@.skip(i as int)[0] == bytes@[i as int]);
            assert(bytes@.skip(i as int)[1] == bytes@[i as int + 1]);
        }
        if bytes[i] == 0x41 && bytes[i + 1] == pid {
            let p = slice_subrange(bytes, i + 2, bytes.len());
            proof {
                assert(bytes@.skip(i as int).skip(2) =~= p@);
            }
            return Some(p);
        }
        proof {
            assert(bytes@.skip(i as int).drop_first() =~= bytes@.skip(i as int + 1));
        }
        i = i + 1;
    }
    proof {
        assert(bytes@.skip(i as int).len() < 2);
    }
    None
}

/// The decode table: the physical value a parameter key assigns to a payload.
/// Keys outside the table, and payloads shorter than the formula's width,
/// yield no value.
pub open spec fn spec_decode_pid(key: Seq<char>, payload: Seq<u8>) -> Option<PhysValue> {
    if key == "engine-rpm"@ {
        if payload.len() >= 2 {
            Some(
                PhysValue {
                    num: (payload[0] as int * 256 + payload[1] as int) as i128,
                    den: 4,
                },
            )
        } else {
            None
        }
    } else if key == "throttle-position"@ {
        if payload.len() >= 1 {
            Some(PhysValue { num: (payload[0] as int * 100) as i128, den: 255 })
        } else {
            None
        }
    } else if key == "coolant-temp"@ || key == "iat"@ || key == "oil-temp"@ {
        if payload.len() >= 1 {
            Some(PhysValue { num: (payload[0] as int - 40) as i128, den: 1 })
        } else {
            None
        }
    } else if key == "vehicle-speed"@ {
        if payload.len() >= 1 {
            Some(PhysValue { num: payload[0] as i128, den: 1 })
        } else {
            None
        }
    } else if key == "timing-avg"@ {
        if payload.len() >= 1 {
            Some(PhysValue { num: (payload[0] as int - 128) as i128, den: 2 })
        } else {
            None
        }
    } else if key == "boost-actual"@ || key == "boost-target"@ {
        if payload.len() >= 1 {
            Some(PhysValue { num: ((payload[0] as int - 100) * 145038) as i128, den: 1000000 })
        } else {
            None
        }
    } else if key == "afr-bank1"@ || key == "afr-bank2"@ {
        if payload.len() >= 2 {
            Some(
                PhysValue {
                    num: (payload[0] as int * 256 + payload[1] as int) as i128,
                    den: 32768,
                },
            )
        } else {
            None
        }
    } else if key == "fuel-pressure"@ {
        if payload.len() >= 1 {
            Some(PhysValue { num: (payload[0] as int * 3) as i128, den: 1 })
        } else {
            None
        }
    } else {
        None
    }
}

/// Applies the decode-table formula for `key` to a positive response's
/// payload bytes. Unknown keys and short payloads yield `None`.
pub fn decode_pid_value(key: &str, payload: &[u8]) -> (r: Option<PhysValue>)
    ensures
        r == spec_decode_pid(key@, payload@),
{
    if str_eq(key, "engine-rpm") {
        if payload.len() >= 2 {
            let n: i128 = (payload[0] as i128) * 256 + (payload[1] as i128);
            Some(PhysValue::new(n, 4))
        } else {
            None
        }
    } else if str_eq(key, "throttle-position") {
        if payload.len() >= 1 {
            Some(PhysValue::new((payload[0] as i128) * 100, 255))
        } else {
            None
        }
    } else if str_eq(key, "coolant-temp") || str_eq(key, "iat") || str_eq(key, "oil-temp") {
        if payload.len() >= 1 {
            Some(PhysValue::new((payload[0] as i128) - 40, 1))
        } else {
            None
        }
    } else if str_eq(key, "vehicle-speed") {
        if payload.len() >= 1 {
            Some(PhysValue::new(payload[0] as i128, 1))
        } else {
            None
        }
    } else if str_eq(key, "timing-avg") {
        if payload.len() >= 1 {
            Some(PhysValue::new((payload[0] as i128) - 128, 2))
        } else {
            None
        }
    } else if str_eq(key, "boost-actual") || str_eq(key, "boost-target") {
        if payload.len() >= 1 {
            Some(PhysValue::new(((payload[0] as i128) - 100) * 145038, 1000000))
        } else {
            None
        }
    } else if str_eq(key, "afr-bank1") || str_eq(key, "afr-bank2") {
        if payload.len() >= 2 {
            let n: i128 = (payload[0] as i128) * 256 + (payload[1] as i128);
            Some(PhysValue::new(n, 32768))
        } else {
            None
        }
    } else if str_eq(key, "fuel-pressure") {
        if payload.len() >= 1 {
            Some(PhysValue::new((payload[0] as i128) * 3, 1))
        } else {
            None
        }
    } else {
        None
    }
}

/// The value a standard-PID query yields from raw response text: hex tokens
/// are parsed, the positive-response marker for `pid_code` is located, and
/// the decode-table formula for `key` is applied to what follows it. An
/// empty token stream or a missing marker yields no value, never an error.
pub open spec fn spec_decode_pid_response(key: Seq<char>, pid_code: u8, response_bytes: Seq<u8>) -> Option<
    PhysValue,
> {
    let tokens = spec_hex_tokens(response_bytes);
    if tokens.len() == 0 {
        None
    } else {
        match spec_find_pid_payload(tokens, pid_code) {
            Some(payload) => spec_decode_pid(key, payload),
            None => None,
        }
    }
}

/// Decodes one standard-PID query response: parses the hex tokens, finds the
/// first `{0x41, pid_code}` marker, and applies the decode-table formula for
/// `key` to the payload after it. `None` models "channel not present on this
/// vehicle", distinct from a communication failure.
pub fn decode_pid_response(key: &str, pid_code: u8, response: &str) -> (r: Option<PhysValue>)
    ensures
        r == spec_decode_pid_response(key@, pid_code, response.spec_bytes()),
{
    let tokens = crate::hex::parse_hex_tokens(response);
    if tokens.len() == 0 {
        return None;
    }
    match find_pid_payload(tokens.as_slice(), pid_code) {
        Some(payload) => decode_pid_value(key, payload),
        None => None,
    }
}

} // verus!
