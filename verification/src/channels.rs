//! Manufacturer-specific channels: generic byte-offset decode descriptors
//! supplied by an external catalog.
//!
//! A descriptor names a raw command, a numeric type, a byte index, and an
//! affine `raw * scale + offset` mapping. Scale and offset are exact
//! millionths, so a decoded value is the exact fraction over one million.

use vstd::prelude::*;
use vstd::string::StringSliceAdditionalSpecFns;
use crate::hex::spec_hex_tokens;
use crate::value::PhysValue;

verus! {

/// The numeric type a descriptor reads from the response bytes.
#[derive(Clone, Copy, Debug, PartialEq, Eq, Structural)]
pub enum DecodeKind {
    /// One unsigned byte.
    U8,
    /// Two bytes, big endian, unsigned.
    U16Be,
    /// Two bytes, big endian, two's complement.
    I16Be,
}

/// A generic decode descriptor: read `kind` at `byte_index`, then apply
/// `raw * scale + offset`. Scale and offset are given in millionths.
#[derive(Clone, Copy, Debug, PartialEq, Eq, Structural)]
pub struct DecodeConfig {
    /// Numeric type of the raw field.
    pub kind: DecodeKind,
    /// Index of the raw field's first byte in the decoded response.
    pub byte_index: usize,
    /// Scale factor, in millionths.
    pub scale_micro: i64,
    /// Offset, in millionths.
    pub offset_micro: i64,
}

/// One catalog entry: the raw command to send and how to decode its response.
#[derive(Debug)]
pub struct BmwChannelConfig {
    /// The raw command string sent verbatim to the adapter.
    pub command: String,
    /// How to decode the response.
    pub decode: DecodeConfig,
}

impl BmwChannelConfig {
    /// An exact copy of this entry.
    pub fn duplicate(&self) -> (r: BmwChannelConfig)
        ensures
            r.command@ == self.command@,
            r.decode == self.decode,
    {
        BmwChannelConfig { command: self.command.clone(), decode: self.decode }
    }
}

/// The raw integer a descriptor's numeric type reads at `index`, or `None`
/// when the field would run past the end of the bytes.
pub open spec fn spec_raw_value(kind: DecodeKind, bytes: Seq<u8>, index: int) -> Option<int> {
    match kind {
        DecodeKind::U8 => if index < bytes.len() {
            Some(bytes[index] as int)
        } else {
            None
        },
        DecodeKind::U16Be => if index + 1 < bytes.len() {
            Some(bytes[index] as int * 256 + bytes[index + 1] as int)
        } else {
            None
        },
        DecodeKind::I16Be => if index + 1 < bytes.len() {
            let unsigned = bytes[index] as int * 256 + bytes[index + 1] as int;
            Some(
                if unsigned >= 32768 {
                    unsigned - 65536
                } else {
                    unsigned
                },
            )
        } else {
            None
        },
    }
}

/// The value a descriptor assigns to decoded response bytes: the raw field
/// at `byte_index`, scaled and offset, as an exact fraction over one
/// million. A field past the end of the bytes silently yields no value.
pub open spec fn spec_decode_from_config(bytes: Seq<u8>, decode: DecodeConfig) -> Option<
    PhysValue,
> {
    match spec_raw_value(decode.kind, bytes, decode.byte_index as int) {
        Some(raw) => Some(
            PhysValue {
                num: (raw * decode.scale_micro as int + decode.offset_micro as int) as i128,
                den: 1000000,
            },
        ),
        None => None,
    }
}

/// Applies a generic decode descriptor to decoded response bytes.
pub fn decode_from_config(bytes: &[u8], decode: &DecodeConfig) -> (r: Option<PhysValue>)
    ensures
        r == spec_decode_from_config(bytes@, *decode),
{
    let index = decode.byte_index;
    let raw: i128 = match decode.kind {
        DecodeKind::U8 => {
            if index < bytes.len() {
                bytes[index] as i128
            } else {
                return None;
            }
        },
        DecodeKind::U16Be => {
            if index < bytes.len() && index + 1 < bytes.len() {
                (bytes[index] as i128) * 256 + (bytes[index + 1] as i128)
            } else {
                return None;
            }
        },
        DecodeKind::I16Be => {
            if index < bytes.len() && index + 1 < bytes.len() {
                let unsigned: i128 = (bytes[index] as i128) * 256 + (bytes[index + 1] as i128);
                if unsigned >= 32768 {
                    unsigned - 65536
                } else {
                    unsigned
                }
            } else {
                return None;
            }
        },
    };
    proof {
        let s = decode.scale_micro as int;
        assert(-32768 <= raw as int <= 65535);
        assert((raw as int) * s <= 65535 * 9223372036854775807 && (raw as int) * s >= -32768
            * 9223372036854775808 - 65535 * 9223372036854775808) by (nonlinear_arith)
            requires
                -32768 <= raw as int <= 65535,
                -9223372036854775808 <= s <= 9223372036854775807,
        ;
    }
    let num: i128 = raw * (decode.scale_micro as i128) + (decode.offset_micro as i128);
    Some(PhysValue::new(num, 1000000))
}

/// The value a manufacturer-channel query yields from raw response text:
/// hex tokens are parsed and the descriptor is applied to the full token
/// sequence (the manufacturer protocol has no response envelope). An empty
/// token stream yields no value.
pub open spec fn spec_decode_channel_response(decode: DecodeConfig, response_bytes: Seq<u8>) -> Option<
    PhysValue,
> {
    let tokens = spec_hex_tokens(response_bytes);
    if tokens.len() == 0 {
        None
    } else {
        spec_decode_from_config(tokens, decode)
    }
}

/// Decodes one manufacturer-channel query response: parses the hex tokens
/// and applies the descriptor directly to the full token sequence.
pub fn decode_channel_response(decode: &DecodeConfig, response: &str) -> (r: Option<PhysValue>)
    ensures
        r == spec_decode_channel_response(*decode, response.spec_bytes()),
{
    let tokens = crate::hex::parse_hex_tokens(response);
    if tokens.len() == 0 {
        return None;
    }
    decode_from_config(tokens.as_slice(), decode)
}

} // verus!
