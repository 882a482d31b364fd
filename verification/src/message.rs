//! The record and its serialized form.
//!
//! A record is one text. Its serialized form is the length of the text's
//! UTF-8 encoding as eight little-endian bytes, followed by that encoding.
//! Parsing reads one record from the front of a byte sequence and ignores
//! whatever follows it.
//!
//! The bytes are made and parsed by `bincode`, which lays a value of one
//! text field out as the text itself; the two calls into it are the private
//! functions `serialize_text` and `deserialize_text`, whose contracts are
//! taken on trust.

use crate::failure::Failure;
use vstd::bytes::{spec_u64_from_le_bytes, spec_u64_to_le_bytes};
use vstd::prelude::*;
use vstd::utf8::{decode_utf8, encode_utf8, valid_utf8};

verus! {

/// The number of bytes in the length prefix of a serialized record.
pub const PREFIX_LEN: usize = 8;

/// The serialized form of a record that holds `text`.
pub open spec fn record_bytes(text: Seq<char>) -> Seq<u8> {
    spec_u64_to_le_bytes(encode_utf8(text).len() as u64) + encode_utf8(text)
}

/// The text of the record at the front of `bytes`, if one is there: at least
/// eight bytes, which give a length; that many bytes after them, which are
/// valid UTF-8.
pub open spec fn record_text(bytes: Seq<u8>) -> Option<Seq<char>> {
    if bytes.len() < PREFIX_LEN {
        None
    } else {
        let n = spec_u64_from_le_bytes(bytes.subrange(0, PREFIX_LEN as int)) as int;
        let body = bytes.subrange(PREFIX_LEN as int, PREFIX_LEN + n);
        if PREFIX_LEN + n <= bytes.len() && valid_utf8(body) {
            Some(decode_utf8(body))
        } else {
            None
        }
    }
}

/// The text that `bytes` encode as UTF-8, if they are valid UTF-8.
pub open spec fn payload_text(bytes: Seq<u8>) -> Option<Seq<char>> {
    if valid_utf8(bytes) {
        Some(decode_utf8(bytes))
    } else {
        None
    }
}

/// `bincode::ErrorKind`, the error of `bincode`'s two functions. It is
/// carried from the call to the match on the result and never looked into.
#[verifier::external_type_specification]
#[verifier::external_body]
pub struct ExErrorKind(bincode::ErrorKind);

/// `core::str::Utf8Error`, the error of `core::str::from_utf8`. It is
/// carried from the call to the match on the result and never looked into.
#[verifier::external_type_specification]
#[verifier::external_body]
pub struct ExUtf8Error(core::str::Utf8Error);

/// `core::str::from_utf8` succeeds exactly on valid UTF-8, and the string it
/// returns is made of the bytes it was given.
pub assume_specification[ core::str::from_utf8 ](v: &[u8]) -> (res: Result<
    &str,
    core::str::Utf8Error,
>)
    ensures
        res is Ok <==> valid_utf8(v@),
        res matches Ok(text) ==> encode_utf8(text@) == v@,
;

/// `bincode::serialize` on a string. With the options that function fixes
/// (fixed-width integers, little-endian, no size limit) it writes the byte
/// length of the string as a `u64` and then the string's bytes, into a
/// vector; nothing on that path fails.
#[verifier::external_body]
fn serialize_text(text: &str) -> (res: Result<Vec<u8>, Box<bincode::ErrorKind>>)
    ensures
        res is Ok,
        res matches Ok(bytes) ==> bytes@ == record_bytes(text@),
{
    bincode::serialize(text)
}

/// `bincode::deserialize` to a `String`. With the options that function
/// fixes it reads a `u64` length from the first eight bytes, takes that many
/// bytes after them, and fails if either is not there or if the bytes taken
/// are not valid UTF-8. Bytes after the string are allowed and ignored.
#[verifier::external_body]
fn deserialize_text(bytes: &[u8]) -> (res: Result<String, Box<bincode::ErrorKind>>)
    ensures
        match res {
            Ok(text) => record_text(bytes@) == Some(text@),
            Err(_) => record_text(bytes@) is None,
        },
{
    bincode::deserialize::<String>(bytes)
}

/// A serialized record is its text's encoding behind an eight-byte prefix.
pub proof fn lemma_record_bytes_len(text: Seq<char>)
    ensures
        record_bytes(text).len() == PREFIX_LEN + encode_utf8(text).len(),
{
    vstd::bytes::lemma_auto_spec_u64_to_from_le_bytes();
}

/// Parsing a serialized record gives its text back, whatever follows the
/// record.
pub proof fn lemma_record_round_trip(text: Seq<char>, rest: Seq<u8>)
    requires
        encode_utf8(text).len() <= u64::MAX,
    ensures
        record_text(record_bytes(text) + rest) == Some(text),
{
    vstd::bytes::lemma_auto_spec_u64_to_from_le_bytes();
    vstd::utf8::encode_utf8_valid_utf8(text);
    vstd::utf8::encode_utf8_decode_utf8(text);
    let body = encode_utf8(text);
    let n = body.len() as u64;
    let all = record_bytes(text) + rest;
    assert(all.subrange(0, PREFIX_LEN as int) =~= spec_u64_to_le_bytes(n));
    assert(all.subrange(PREFIX_LEN as int, PREFIX_LEN + n) =~= body);
}

/// The record: one text.
#[derive(Debug, PartialEq, Eq)]
pub struct Message {
    pub data: String,
}

impl View for Message {
    type V = Seq<char>;

    open spec fn view(&self) -> Seq<char> {
        self.data@
    }
}

impl Default for Message {
    /// The record with the empty text.
    fn default() -> (message: Message)
        ensures
            message@ == Seq::<char>::empty(),
    {
        Message { data: String::new() }
    }
}

impl Message {
    /// The record that holds `data`.
    pub fn new(data: String) -> (message: Message)
        ensures
            message@ == data@,
    {
        Message { data }
    }

    /// The record whose text the payload encodes.
    ///
    /// Fails with `InvalidEncoding` exactly when the payload is not valid
    /// UTF-8.
    pub fn from_payload(payload: &[u8]) -> (res: Result<Message, Failure>)
        ensures
            match res {
                Ok(message) => payload_text(payload@) == Some(message@),
                Err(failure) => payload_text(payload@) is None && failure
                    == Failure::InvalidEncoding,
            },
    {
        match core::str::from_utf8(payload) {
            Ok(text) => {
                proof {
                    vstd::utf8::encode_utf8_decode_utf8(text@);
                }
                Ok(Message { data: text.to_owned() })
            },
            Err(_) => Err(Failure::InvalidEncoding),
        }
    }

    /// The serialized form of this record.
    pub fn to_bytes(&self) -> (bytes: Vec<u8>)
        ensures
            bytes@ == record_bytes(self@),
    {
        match serialize_text(self.data.as_str()) {
            Ok(bytes) => bytes,
            Err(_) => vstd::pervasive::unreached(),
        }
    }

    /// The record at the front of `bytes`.
    ///
    /// Fails with `DeserializationError` exactly when no record is there.
    pub fn from_bytes(bytes: &[u8]) -> (res: Result<Message, Failure>)
        ensures
            match res {
                Ok(message) => record_text(bytes@) == Some(message@),
                Err(failure) => record_text(bytes@) is None && failure
                    == Failure::DeserializationError,
            },
    {
        match deserialize_text(bytes) {
            Ok(data) => Ok(Message { data }),
            Err(_) => Err(Failure::DeserializationError),
        }
    }
}

} // verus!
