//! The calls into `prost` that read and write single fields.
//!
//! Each function here hands one call to `prost::encoding` and states what the
//! call does in the terms of [`crate::wire`]. Verus takes these contracts on
//! trust: they are read off the source of `prost`, not proved.

use crate::wire::{
    key_parse, skipped_len, string_field_bytes, string_parse, MAX_TAG, MIN_TAG, RECURSION_LIMIT,
    WIRE_THIRTY_TWO_BIT,
};
use vstd::prelude::*;
use vstd::utf8::*;

verus! {

/// `prost::DecodeError`, the reason `prost` gives when it cannot read
/// something. Nothing is known of what it holds.
#[verifier::external_type_specification]
#[verifier::external_body]
pub struct ExDecodeError(prost::DecodeError);

/// Calls `prost::encoding::decode_key` on `buf`.
///
/// Trusted: the call reads one varint, fails if it is above `u32::MAX`, if
/// its low three bits are above 5 or if the rest of it is 0, and else gives
/// the rest as the field number and the low three bits as the wire type. What
/// comes back beside them is `buf` without the bytes of the key.
#[verifier::external_body]
pub(crate) fn decode_key(buf: &[u8]) -> (r: Result<(u32, u8, &[u8]), prost::DecodeError>)
    ensures
        match r {
            Ok((tag, wire_type, rest)) => key_parse(buf@) matches Some((t, w, n)) && t == tag && w
                == wire_type && rest@ == buf@.skip(n as int),
            Err(_) => key_parse(buf@) is None,
        },
{
    let mut rest = buf;
    let (tag, wire_type) = prost::encoding::decode_key(&mut rest)?;
    Ok((tag, wire_type as u8, rest))
}

/// Calls `prost::encoding::string::merge` on `buf`, for a field whose key gave
/// `wire_type`.
///
/// Trusted: the call fails unless the wire type is 2; it then reads a varint
/// as the length, fails if fewer bytes are left, replaces what `value` held by
/// that many bytes and fails if they are not UTF-8. What comes back is `buf`
/// without the length and the payload. Whenever the call fails it leaves
/// `value` empty. A wire type above 5 fails before the call, in `prost`'s own
/// conversion from a number, and `value` is then as it was.
#[verifier::external_body]
pub(crate) fn merge_string<'a>(wire_type: u8, value: &mut String, buf: &'a [u8]) -> (r: Result<
    &'a [u8],
    prost::DecodeError,
>)
    ensures
        match r {
            Ok(rest) => string_parse(wire_type, buf@) matches Some((payload, n)) && encode_utf8(
                final(value)@,
            ) == payload && rest@ == buf@.skip(n as int),
            Err(_) => string_parse(wire_type, buf@) is None && final(value)@ == (if wire_type
                <= WIRE_THIRTY_TWO_BIT {
                Seq::<char>::empty()
            } else {
                old(value)@
            }),
        },
{
    let mut rest = buf;
    let wire_type = prost::encoding::WireType::try_from(u64::from(wire_type))?;
    let ctx = prost::encoding::DecodeContext::default();
    prost::encoding::string::merge(wire_type, value, &mut rest, ctx)?;
    Ok(rest)
}

/// Calls `prost::encoding::skip_field` on `buf`, for a field whose key gave
/// `wire_type` and `tag`, with a fresh decode context.
///
/// Trusted: the call passes over one varint, 4 bytes, 8 bytes, a length and
/// that many bytes, or a whole group up to the key that closes it under the
/// same field number, and fails where the bytes end too early, on a closing
/// key of its own, and where groups nest 100 deep. What comes back is `buf`
/// without the field. A wire type above 5 fails before the call, in `prost`'s
/// own conversion from a number.
#[verifier::external_body]
pub(crate) fn skip_field<'a>(wire_type: u8, tag: u32, buf: &'a [u8]) -> (r: Result<
    &'a [u8],
    prost::DecodeError,
>)
    ensures
        match r {
            Ok(rest) => skipped_len(wire_type, tag, buf@, RECURSION_LIMIT as nat) matches Some(n)
                && rest@ == buf@.skip(n as int),
            Err(_) => skipped_len(wire_type, tag, buf@, RECURSION_LIMIT as nat) is None,
        },
{
    let mut rest = buf;
    let wire_type = prost::encoding::WireType::try_from(u64::from(wire_type))?;
    let ctx = prost::encoding::DecodeContext::default();
    prost::encoding::skip_field(wire_type, tag, &mut rest, ctx)?;
    Ok(rest)
}

/// Calls `prost::encoding::string::encode`, which appends a string field to
/// `buf`.
///
/// Trusted: the call appends the key of `tag` with wire type 2, the length of
/// `value` in bytes as a varint, and the bytes of `value`. `prost` asserts in
/// debug builds that the field number is in range, hence the `requires`.
#[verifier::external_body]
pub(crate) fn encode_string(tag: u32, value: &String, buf: &mut Vec<u8>)
    requires
        MIN_TAG <= tag <= MAX_TAG,
    ensures
        final(buf)@ == old(buf)@ + string_field_bytes(tag, value@),
{
    prost::encoding::string::encode(tag, value, buf);
}

} // verus!
