use crate::error::{Error, ErrorView};
use percent_encoding::percent_decode_str;
use vstd::prelude::*;
use vstd::string::StringExecFns;
use vstd::utf8::{decode_utf8, encode_utf8, valid_utf8};

verus! {

/// The value of a hexadecimal digit, given as a byte of text.
pub open spec fn hex_digit(byte: u8) -> Option<int> {
    if 0x30 <= byte <= 0x39 {
        Some(byte - 0x30)
    } else if 0x41 <= byte <= 0x46 {
        Some(byte - 0x41 + 10)
    } else if 0x61 <= byte <= 0x66 {
        Some(byte - 0x61 + 10)
    } else {
        None
    }
}

/// A percent sign followed by two hexadecimal digits stands at index `at`.
pub open spec fn escape_at(bytes: Seq<u8>, at: int) -> bool {
    &&& 0 <= at
    &&& at + 2 < bytes.len()
    &&& bytes[at] == 0x25
    &&& hex_digit(bytes[at + 1]) is Some
    &&& hex_digit(bytes[at + 2]) is Some
}

/// `bytes` from index `from` on, with each percent sign that two hexadecimal
/// digits follow replaced, together with them, by the byte that the digits
/// name. Every other byte stands for itself.
pub open spec fn percent_decoding_from(bytes: Seq<u8>, from: int) -> Seq<u8>
    decreases bytes.len() - from,
{
    if from < 0 || from >= bytes.len() {
        Seq::empty()
    } else if escape_at(bytes, from) {
        seq![(hex_digit(bytes[from + 1])->0 * 16 + hex_digit(bytes[from + 2])->0) as u8]
            + percent_decoding_from(bytes, from + 3)
    } else {
        seq![bytes[from]] + percent_decoding_from(bytes, from + 1)
    }
}

/// The bytes that a percent-encoded text stands for.
pub open spec fn percent_decoding(bytes: Seq<u8>) -> Seq<u8> {
    percent_decoding_from(bytes, 0)
}

/// Calls `percent_decode_str` of `percent_encoding` and collects the bytes
/// it yields: each `%` that two hexadecimal digits follow gives, with them,
/// one byte; every other byte of the text is handed on as it is.
#[verifier::external_body]
fn percent_decode(text: &str) -> (bytes: Vec<u8>)
    ensures
        bytes@ == percent_decoding(encode_utf8(text@)),
{
    percent_decode_str(text).collect()
}

/// What the standard library says of bytes that are no UTF-8: where they
/// stop being it, and how many bytes are at fault.
pub uninterp spec fn utf8_error_description(bytes: Seq<u8>) -> Seq<char>;

/// Calls `std::str::from_utf8` on bytes that are no UTF-8 and the `Display`
/// formatting of the error it gives. The result is named by
/// `utf8_error_description`. On well-formed bytes there is no error to
/// format, which the precondition rules out.
#[verifier::external_body]
fn utf8_error_text(bytes: &[u8]) -> (text: String)
    requires
        !valid_utf8(bytes@),
    ensures
        text@ == utf8_error_description(bytes@),
{
    std::str::from_utf8(bytes).unwrap_err().to_string()
}

/// The file name that a percent-encoded name stands for, if what it encodes is UTF-8.
pub open spec fn filename_decoding(name: Seq<char>) -> Option<Seq<char>> {
    let bytes = percent_decoding(encode_utf8(name));
    if valid_utf8(bytes) {
        Some(decode_utf8(bytes))
    } else {
        None
    }
}

/// How the text of the error for an undecodable file name begins.
pub open spec fn invalid_filename_prefix() -> Seq<char> {
    "Invalid filename: "@
}

/// The text of the error for a file name whose decoded bytes are no UTF-8.
pub open spec fn invalid_filename_message(name: Seq<char>) -> Seq<char> {
    invalid_filename_prefix() + utf8_error_description(percent_decoding(encode_utf8(name)))
}

/// Decodes a percent-encoded file name. A name whose decoded bytes are no
/// UTF-8 is an internal error, whose text says where the bytes go wrong.
pub fn decode_filename(name: &str) -> (r: Result<String, Error>)
    ensures
        match r {
            Ok(decoded) => filename_decoding(name@) == Some(decoded@),
            Err(e) => filename_decoding(name@) is None && e@ == ErrorView::Internal(
                invalid_filename_message(name@),
            ),
        },
{
    let bytes = percent_decode(name);
    let kept = bytes.clone();
    assert(kept@ =~= bytes@);
    match String::from_utf8(bytes) {
        Ok(decoded) => Ok(decoded),
        Err(_) => {
            let mut message = String::from_str("Invalid filename: ");
            let reason = utf8_error_text(kept.as_slice());
            message.append(reason.as_str());
            Err(Error::Internal(message))
        },
    }
}

} // verus!
