//! The message the service echoes, and its wire form.
//!
//! An [`EchoMessage`] is a Protocol Buffers message with one string field,
//! number 1. [`EchoMessage::encode_to_vec`] writes it, [`EchoMessage::decode`]
//! reads it; [`encoded`] and [`decoded`] say what the two compute.

use crate::fields::{decode_key, encode_string, merge_string, skip_field};
use crate::wire::{
    key_parse, lemma_skipped_len_bound, lemma_varint_parse_len, lemma_varint_roundtrip,
    skipped_len, string_field_bytes, string_parse, RECURSION_LIMIT, WIRE_LENGTH_DELIMITED,
    WIRE_THIRTY_TWO_BIT,
};
use vstd::prelude::*;
use vstd::utf8::*;

verus! {

/// The field number of [`EchoMessage::content`].
pub const CONTENT_TAG: u32 = 1;

/// A text to be echoed.
#[derive(Clone, Debug, PartialEq, Eq)]
pub struct EchoMessage {
    /// The text. Field 1 on the wire.
    pub content: String,
}

/// Why bytes were not read as an [`EchoMessage`].
#[derive(Clone, Copy, Debug, PartialEq, Eq, Structural)]
pub enum FrameError {
    /// Where a field should start there is no well-formed key.
    InvalidKey,
    /// Field 1 is not a length-delimited, complete, UTF-8 string.
    InvalidContent,
    /// A field with another number is cut short, malformed or nested too
    /// deep to be passed over.
    InvalidUnknownField,
}

impl View for EchoMessage {
    type V = Seq<char>;

    /// A message is its text.
    open spec fn view(&self) -> Seq<char> {
        self.content@
    }
}

/// The wire form of a message that holds `content`: nothing for the empty
/// text, else field 1 as a string.
pub open spec fn encoded(content: Seq<char>) -> Seq<u8> {
    if content.len() == 0 {
        Seq::empty()
    } else {
        string_field_bytes(CONTENT_TAG, content)
    }
}

/// What reading the fields in `s` makes of a message that holds `content`:
/// each field 1 replaces the text, each other field is passed over, and the
/// first field that cannot be read ends it with the error that names it.
pub open spec fn merged(s: Seq<u8>, content: Seq<char>) -> Result<Seq<char>, FrameError>
    decreases s.len(),
{
    if s.len() == 0 {
        Ok(content)
    } else {
        match key_parse(s) {
            None => Err(FrameError::InvalidKey),
            Some((tag, wire_type, n)) => {
                let fields = s.skip(n as int);
                proof {
                    lemma_varint_parse_len(s);
                    lemma_field_merged_bound(tag, wire_type, fields, content);
                }
                match field_merged(tag, wire_type, fields, content) {
                    Err(e) => Err(e),
                    Ok((text, m)) => merged(fields.skip(m as int), text),
                }
            },
        }
    }
}

/// What the field at the front of `s` makes of a message that holds
/// `content`, where `tag` and `wire_type` are what its key gave: the text after
/// it and the field's length in bytes.
pub open spec fn field_merged(tag: u32, wire_type: u8, s: Seq<u8>, content: Seq<char>) -> Result<
    (Seq<char>, nat),
    FrameError,
> {
    if tag == CONTENT_TAG {
        match string_parse(wire_type, s) {
            Some((payload, n)) => Ok((decode_utf8(payload), n)),
            None => Err(FrameError::InvalidContent),
        }
    } else {
        match skipped_len(wire_type, tag, s, RECURSION_LIMIT as nat) {
            Some(n) => Ok((content, n)),
            None => Err(FrameError::InvalidUnknownField),
        }
    }
}

/// What is left of a text `content` after a field that could not be read,
/// where `tag` and `wire_type` are what the field's key gave: a field 1 leaves
/// the empty text, unless its wire type is none of the six there are; a field
/// with another number leaves the text as it was.
pub open spec fn field_failed(tag: u32, wire_type: u8, content: Seq<char>) -> Seq<char> {
    if tag == CONTENT_TAG && wire_type <= WIRE_THIRTY_TWO_BIT {
        Seq::empty()
    } else {
        content
    }
}

/// What `s` holds, read as a message: the text of the last field 1 in it, the
/// empty text where there is none, or the error of the first field that
/// cannot be read.
pub open spec fn decoded(s: Seq<u8>) -> Result<Seq<char>, FrameError> {
    merged(s, Seq::empty())
}

/// A field that was read lies within the bytes it was found in.
pub proof fn lemma_field_merged_bound(tag: u32, wire_type: u8, s: Seq<u8>, content: Seq<char>)
    ensures
        field_merged(tag, wire_type, s, content) matches Ok((_, n)) ==> n <= s.len(),
{
    lemma_varint_parse_len(s);
    lemma_skipped_len_bound(wire_type, tag, s, RECURSION_LIMIT as nat);
}

impl Default for EchoMessage {
    /// The message with the empty text.
    fn default() -> (message: EchoMessage)
        ensures
            message@ == Seq::<char>::empty(),
    {
        EchoMessage { content: String::new() }
    }
}

impl EchoMessage {
    /// Writes the message in its wire form.
    pub fn encode_to_vec(&self) -> (bytes: Vec<u8>)
        ensures
            bytes@ == encoded(self@),
            decoded(bytes@) == Ok::<Seq<char>, FrameError>(self@),
    {
        let mut bytes = Vec::new();
        if !self.content.as_str().is_empty() {
            encode_string(CONTENT_TAG, &self.content, &mut bytes);
        }
        proof {
            assert(bytes@ =~= encoded(self@));
            assert(encode_utf8(self@).len() <= bytes.len()) by {
                lemma_encoded_len(self@);
            }
            lemma_decode_encode(self@);
        }
        bytes
    }

    /// Reads the field at the front of `buf` into the message, where `tag` and
    /// `wire_type` are what its key gave, and gives back what follows the
    /// field. Field 1 replaces the text; any other field is passed over.
    pub fn merge_field<'a>(&mut self, tag: u32, wire_type: u8, buf: &'a [u8]) -> (r: Result<
        &'a [u8],
        FrameError,
    >)
        ensures
            match r {
                Ok(rest) => field_merged(tag, wire_type, buf@, old(self)@) matches Ok((text, n))
                    && final(self)@ == text && n <= buf@.len() && rest@ == buf@.skip(n as int),
                Err(e) => field_merged(tag, wire_type, buf@, old(self)@) == Err::<
                    (Seq<char>, nat),
                    FrameError,
                >(e) && final(self)@ == field_failed(tag, wire_type, old(self)@),
            },
    {
        proof {
            lemma_field_merged_bound(tag, wire_type, buf@, self@);
        }
        if tag == CONTENT_TAG {
            match merge_string(wire_type, &mut self.content, buf) {
                Ok(rest) => {
                    proof {
                        encode_utf8_decode_utf8(self.content@);
                    }
                    Ok(rest)
                },
                Err(_) => Err(FrameError::InvalidContent),
            }
        } else {
            match skip_field(wire_type, tag, buf) {
                Ok(rest) => Ok(rest),
                Err(_) => Err(FrameError::InvalidUnknownField),
            }
        }
    }

    /// Reads a message from its wire form. All of `buffer` is read.
    pub fn decode(buffer: &[u8]) -> (r: Result<EchoMessage, FrameError>)
        ensures
            match r {
                Ok(message) => decoded(buffer@) == Ok::<Seq<char>, FrameError>(message@),
                Err(e) => decoded(buffer@) == Err::<Seq<char>, FrameError>(e),
            },
    {
        let mut message = EchoMessage::default();
        let mut rest = buffer;
        while rest.len() > 0
            invariant
                decoded(buffer@) == merged(rest@, message@),
            decreases rest@.len(),
        {
            proof {
                lemma_varint_parse_len(rest@);
            }
            let (tag, wire_type, fields) = match decode_key(rest) {
                Ok(key) => key,
                Err(_) => {
                    return Err(FrameError::InvalidKey);
                },
            };
            match message.merge_field(tag, wire_type, fields) {
                Ok(after) => {
                    rest = after;
                },
                Err(e) => {
                    return Err(e);
                },
            }
        }
        Ok(message)
    }
}

/// The wire form of a non-empty text is longer than the text's UTF-8 form;
/// the empty text has no bytes in either form.
pub proof fn lemma_encoded_len(content: Seq<char>)
    ensures
        content.len() == 0 ==> encoded(content).len() == 0 && encode_utf8(content).len() == 0,
        content.len() != 0 ==> encoded(content).len() > encode_utf8(content).len(),
{
}

/// Round trip: reading the wire form of a text gives that text back.
///
/// It holds of every text whose UTF-8 form has a length that fits in 64 bits,
/// which is every text a `String` can hold.
pub proof fn lemma_decode_encode(content: Seq<char>)
    requires
        encode_utf8(content).len() <= u64::MAX,
    ensures
        decoded(encoded(content)) == Ok::<Seq<char>, FrameError>(content),
{
    if content.len() == 0 {
        assert(content =~= Seq::<char>::empty());
    } else {
        let text = encode_utf8(content);
        let length = crate::wire::varint_bytes(text.len());
        let fields = length + text;
        let s = encoded(content);
        let n = length.len();
        assert(key_parse(s) == Some((CONTENT_TAG, WIRE_LENGTH_DELIMITED, 1nat))) by {
            lemma_varint_roundtrip(10u64, fields);
            assert(crate::wire::varint_bytes(10) =~= seq![10u8]);
            assert(s =~= crate::wire::varint_bytes(10) + fields);
        }
        assert(s.skip(1) =~= fields);
        assert(string_parse(WIRE_LENGTH_DELIMITED, fields) == Some((text, (n + text.len()) as nat)))
            by {
            lemma_varint_roundtrip(text.len() as u64, text);
            assert(fields.subrange(n as int, (n + text.len()) as int) =~= text);
            encode_utf8_valid_utf8(content);
        }
        assert(decode_utf8(text) == content) by {
            encode_utf8_decode_utf8(content);
        }
        assert(field_merged(CONTENT_TAG, WIRE_LENGTH_DELIMITED, fields, Seq::<char>::empty())
            == Ok::<(Seq<char>, nat), FrameError>((content, (n + text.len()) as nat)));
        assert(fields.skip((n + text.len()) as int) =~= Seq::<u8>::empty());
        assert(merged(Seq::<u8>::empty(), content) == Ok::<Seq<char>, FrameError>(content));
        assert(s.len() != 0);
    }
}

} // verus!
