//! The Protocol Buffers wire format, as far as a message with one string
//! field needs it: base-128 varints, field keys, length-delimited payloads and
//! the fields a reader passes over.
//!
//! Everything here is specification: functions from byte sequences to what
//! they hold, and the lemmas that relate writing to reading.

use vstd::prelude::*;
use vstd::utf8::*;

verus! {

/// The smallest field number a key may carry.
pub const MIN_TAG: u32 = 1;

/// The largest field number a key may carry: 29 bits.
pub const MAX_TAG: u32 = 0x1FFF_FFFF;

/// Wire type of a varint field.
pub const WIRE_VARINT: u8 = 0;

/// Wire type of a fixed 64-bit field.
pub const WIRE_SIXTY_FOUR_BIT: u8 = 1;

/// Wire type of a length-delimited field.
pub const WIRE_LENGTH_DELIMITED: u8 = 2;

/// Wire type that opens a group.
pub const WIRE_START_GROUP: u8 = 3;

/// Wire type that closes a group.
pub const WIRE_END_GROUP: u8 = 4;

/// Wire type of a fixed 32-bit field.
pub const WIRE_THIRTY_TWO_BIT: u8 = 5;

/// How many bytes a varint may take at most.
pub const MAX_VARINT_LEN: usize = 10;

/// How deep groups may nest inside a field that is passed over.
pub const RECURSION_LIMIT: u32 = 100;

/// The base-128 encoding of `v`, least significant group first: seven bits to
/// a byte, the high bit set on every byte but the last.
pub open spec fn varint_bytes(v: nat) -> Seq<u8>
    decreases v,
{
    if v < 128 {
        seq![v as u8]
    } else {
        seq![(v % 128 + 128) as u8] + varint_bytes(v / 128)
    }
}

/// Reads base-128 groups from the front of `s`, at most `limit` of them, up to
/// and including the first byte without the high bit. Gives the number read
/// and how many bytes it took, or `None` where `s` or `limit` ends first.
pub open spec fn varint_scan(s: Seq<u8>, limit: nat) -> Option<(nat, nat)>
    decreases limit,
{
    if limit == 0 || s.len() == 0 {
        None
    } else if s[0] < 128 {
        Some((s[0] as nat, 1))
    } else {
        match varint_scan(s.skip(1), (limit - 1) as nat) {
            Some((high, n)) => Some(((s[0] - 128 + 128 * high) as nat, n + 1)),
            None => None,
        }
    }
}

/// The varint at the front of `s` and its length in bytes. There is none where
/// `s` ends before the varint does, where it runs past ten bytes, or where
/// its value does not fit in 64 bits.
pub open spec fn varint_parse(s: Seq<u8>) -> Option<(u64, nat)> {
    match varint_scan(s, MAX_VARINT_LEN as nat) {
        Some((v, n)) => if v <= u64::MAX {
            Some((v as u64, n))
        } else {
            None
        },
        None => None,
    }
}

/// A scan that succeeds has read at least one byte, no more than there are and
/// no more than the limit.
pub proof fn lemma_varint_scan_len(s: Seq<u8>, limit: nat)
    ensures
        varint_scan(s, limit) matches Some((_, n)) ==> 1 <= n <= s.len() && n <= limit,
    decreases limit,
{
    if limit != 0 && s.len() != 0 && s[0] >= 128 {
        lemma_varint_scan_len(s.skip(1), (limit - 1) as nat);
    }
}

/// The encoding of a number below `128^k` takes at most `k` bytes.
pub proof fn lemma_varint_bytes_len(v: nat, k: nat)
    requires
        k >= 1,
        v < vstd::arithmetic::power::pow(128, k),
    ensures
        1 <= varint_bytes(v).len() <= k,
    decreases k,
{
    vstd::arithmetic::power::lemma_pow1(128);
    if v >= 128 {
        if k == 1 {
            assert(false);
        } else {
            vstd::arithmetic::power::lemma_pow_adds(128, 1, (k - 1) as nat);
            assert(v / 128 < vstd::arithmetic::power::pow(128, (k - 1) as nat)) by (nonlinear_arith)
                requires
                    v < 128 * vstd::arithmetic::power::pow(128, (k - 1) as nat),
            ;
            lemma_varint_bytes_len(v / 128, (k - 1) as nat);
        }
    }
}

/// Reading gives back what was written, whatever follows it, as long as the
/// limit admits the encoding's length.
pub proof fn lemma_varint_scan_bytes(v: nat, rest: Seq<u8>, limit: nat)
    requires
        varint_bytes(v).len() <= limit,
    ensures
        varint_scan(varint_bytes(v) + rest, limit) == Some((v, varint_bytes(v).len())),
    decreases v,
{
    let s = varint_bytes(v) + rest;
    if v < 128 {
        assert(s[0] == v as u8);
    } else {
        let tail = varint_bytes(v / 128);
        assert(s[0] == (v % 128 + 128) as u8);
        assert(s.skip(1) =~= tail + rest);
        lemma_varint_scan_bytes(v / 128, rest, (limit - 1) as nat);
    }
}

/// Every 64-bit number is written in at most ten bytes and read back as
/// itself, whatever follows it.
pub proof fn lemma_varint_roundtrip(v: u64, rest: Seq<u8>)
    ensures
        1 <= varint_bytes(v as nat).len() <= MAX_VARINT_LEN,
        varint_parse(varint_bytes(v as nat) + rest) == Some((v, varint_bytes(v as nat).len())),
{
    assert(vstd::arithmetic::power::pow(128, 10) > u64::MAX) by {
        reveal_with_fuel(vstd::arithmetic::power::pow, 11);
    }
    lemma_varint_bytes_len(v as nat, 10);
    lemma_varint_scan_bytes(v as nat, rest, 10);
}

/// A parsed varint has read at least one byte and no more than there are.
pub proof fn lemma_varint_parse_len(s: Seq<u8>)
    ensures
        varint_parse(s) matches Some((_, n)) ==> 1 <= n <= s.len() && n <= MAX_VARINT_LEN,
{
    lemma_varint_scan_len(s, MAX_VARINT_LEN as nat);
}

/// The number a key stands for: the field number in the high bits, the wire
/// type in the low three.
pub open spec fn key_value(tag: u32, wire_type: u8) -> nat {
    (tag * 8 + wire_type) as nat
}

/// The bytes of the key of field `tag` with wire type `wire_type`.
pub open spec fn key_bytes(tag: u32, wire_type: u8) -> Seq<u8> {
    varint_bytes(key_value(tag, wire_type))
}

/// The key at the front of `s`: field number, wire type and length in bytes.
/// There is none where no varint is there, where the varint is above 32 bits,
/// where its low three bits name no wire type, or where the field number is 0.
pub open spec fn key_parse(s: Seq<u8>) -> Option<(u32, u8, nat)> {
    match varint_parse(s) {
        Some((key, n)) => if key > u32::MAX || key % 8 > WIRE_THIRTY_TWO_BIT || key / 8 < MIN_TAG {
            None
        } else {
            Some(((key / 8) as u32, (key % 8) as u8, n))
        },
        None => None,
    }
}

/// The payload of the length-delimited field at the front of `s`, where
/// `wire_type` is the wire type its key gave, and the field's length in
/// bytes, prefix included. There is none where the wire type is another,
/// where no length is there, or where `s` ends before the payload does.
pub open spec fn delimited_parse(wire_type: u8, s: Seq<u8>) -> Option<(Seq<u8>, nat)> {
    if wire_type != WIRE_LENGTH_DELIMITED {
        None
    } else {
        match varint_parse(s) {
            Some((len, n)) => if len > s.len() - n {
                None
            } else {
                Some((s.subrange(n as int, n + len), (n + len) as nat))
            },
            None => None,
        }
    }
}

/// The bytes of the string field at the front of `s` and the field's length:
/// a length-delimited payload that is well-formed UTF-8.
pub open spec fn string_parse(wire_type: u8, s: Seq<u8>) -> Option<(Seq<u8>, nat)> {
    match delimited_parse(wire_type, s) {
        Some((payload, n)) => if valid_utf8(payload) {
            Some((payload, n))
        } else {
            None
        },
        None => None,
    }
}

/// The bytes of a string field `tag` that holds `text`: its key, the length of
/// the text in bytes, the text in UTF-8.
pub open spec fn string_field_bytes(tag: u32, text: Seq<char>) -> Seq<u8> {
    key_bytes(tag, WIRE_LENGTH_DELIMITED) + varint_bytes(encode_utf8(text).len())
        + encode_utf8(text)
}

/// The length in bytes of the field at the front of `s` that a reader passes
/// over, where `wire_type` and `tag` are what its key gave. `depth` is how many
/// more levels may be entered: the field itself takes one, each group inside
/// a group one more. There is none where `depth` is 0, where the wire type
/// closes a group or is unknown, where `s` ends before the field does, or
/// where a group is closed under another field number than it was opened.
pub open spec fn skipped_len(wire_type: u8, tag: u32, s: Seq<u8>, depth: nat) -> Option<nat>
    decreases depth, s.len(), 1nat,
{
    if depth == 0 {
        None
    } else if wire_type == WIRE_VARINT {
        match varint_parse(s) {
            Some((_, n)) => Some(n),
            None => None,
        }
    } else if wire_type == WIRE_SIXTY_FOUR_BIT {
        if s.len() >= 8 {
            Some(8)
        } else {
            None
        }
    } else if wire_type == WIRE_THIRTY_TWO_BIT {
        if s.len() >= 4 {
            Some(4)
        } else {
            None
        }
    } else if wire_type == WIRE_LENGTH_DELIMITED {
        match delimited_parse(wire_type, s) {
            Some((_, n)) => Some(n),
            None => None,
        }
    } else if wire_type == WIRE_START_GROUP {
        group_len(tag, s, depth)
    } else {
        None
    }
}

/// The length in bytes of what is left of the group `tag` at the front of `s`,
/// up to and including the key that closes it. `depth` is the number of levels
/// that the group's own field was given.
pub open spec fn group_len(tag: u32, s: Seq<u8>, depth: nat) -> Option<nat>
    decreases depth, s.len(), 0nat,
{
    match key_parse(s) {
        Some((inner_tag, inner_type, n)) => {
            proof {
                lemma_varint_parse_len(s);
            }
            if depth == 0 {
                None
            } else if inner_type == WIRE_END_GROUP {
                if inner_tag == tag {
                    Some(n)
                } else {
                    None
                }
            } else {
                match skipped_len(inner_type, inner_tag, s.skip(n as int), (depth - 1) as nat) {
                    // The inner field always lies within `s`
                    // (`lemma_skipped_len_bound`); the test is there for the
                    // proof of termination, which cannot yet know it.
                    Some(m) => if n + m > s.len() {
                        None
                    } else {
                        match group_len(tag, s.skip((n + m) as int), depth) {
                            Some(k) => Some(n + m + k),
                            None => None,
                        }
                    },
                    None => None,
                }
            }
        },
        None => None,
    }
}

/// A field that is passed over lies within the bytes it was found in.
pub proof fn lemma_skipped_len_bound(wire_type: u8, tag: u32, s: Seq<u8>, depth: nat)
    ensures
        skipped_len(wire_type, tag, s, depth) matches Some(n) ==> n <= s.len(),
    decreases depth, s.len(), 1nat,
{
    lemma_varint_parse_len(s);
    if depth != 0 && wire_type == WIRE_START_GROUP {
        lemma_group_len_bound(tag, s, depth);
    }
}

/// A group ends within the bytes it was found in, and its closing key takes at
/// least one of them.
pub proof fn lemma_group_len_bound(tag: u32, s: Seq<u8>, depth: nat)
    ensures
        group_len(tag, s, depth) matches Some(n) ==> 1 <= n <= s.len(),
    decreases depth, s.len(), 0nat,
{
    lemma_varint_parse_len(s);
    if let Some((inner_tag, inner_type, n)) = key_parse(s) {
        if depth != 0 && inner_type != WIRE_END_GROUP {
            let inner = skipped_len(inner_type, inner_tag, s.skip(n as int), (depth - 1) as nat);
            if let Some(m) = inner {
                if n + m <= s.len() {
                    lemma_group_len_bound(tag, s.skip((n + m) as int), depth);
                }
            }
        }
    }
}

} // verus!
