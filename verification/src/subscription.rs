use vstd::prelude::*;
use vstd::utf8::{decode_utf8, valid_utf8};
use std::string::FromUtf8Error;
use crate::text::{join_with, lemma_split_join, lemma_split_pieces_free_of_sep, lemma_trim_end, split_by, split_on, trim_end, trim_end_of};

verus! {

#[verifier::external_type_specification]
#[verifier::external_body]
pub struct ExDecodeError(base64::DecodeError);

#[verifier::external_type_specification]
#[verifier::external_body]
pub struct ExFromUtf8Error(FromUtf8Error);

/// The bytes that `base64::decode` (standard alphabet; trailing padding may
/// be left out) gives for the UTF-8 bytes of a text, or `None` where it
/// refuses the text.
pub uninterp spec fn base64_decoded(input: Seq<char>) -> Option<Seq<u8>>;

/// Calls `base64::decode` on the bytes of `input`.
/// Claimed: the result is a function of `input` alone, named `base64_decoded`;
/// what that function is, is left to the `base64` crate.
#[verifier::external_body]
fn decode_base64(input: &str) -> (r: Result<Vec<u8>, base64::DecodeError>)
    ensures
        match r {
            Ok(bytes) => base64_decoded(input@) == Some(bytes@),
            Err(_) => base64_decoded(input@) is None,
        },
{
    base64::decode(input)
}

/// Calls `String::from_utf8`.
/// Claimed, as std documents: it succeeds exactly on valid UTF-8, and then
/// holds the characters that the bytes encode.
#[verifier::external_body]
fn string_from_utf8(bytes: Vec<u8>) -> (r: Result<String, FromUtf8Error>)
    ensures
        match r {
            Ok(s) => valid_utf8(bytes@) && s@ == decode_utf8(bytes@),
            Err(_) => !valid_utf8(bytes@),
        },
{
    String::from_utf8(bytes)
}

/// Why a base64 text could not be read.
pub enum TextDecodeError {
    /// The text is not standard base64.
    Base64(base64::DecodeError),
    /// The decoded bytes are not UTF-8.
    Utf8(FromUtf8Error),
}

/// The text that a base64 text stands for: base64-decoded, then read as UTF-8.
pub open spec fn base64_text(input: Seq<char>) -> Option<Seq<char>> {
    match base64_decoded(input) {
        Some(bytes) => if valid_utf8(bytes) { Some(decode_utf8(bytes)) } else { None },
        None => None,
    }
}

/// Which error decoding `input` runs into first.
pub open spec fn base64_text_error_is(input: Seq<char>, e: TextDecodeError) -> bool {
    match e {
        TextDecodeError::Base64(_) => base64_decoded(input) is None,
        TextDecodeError::Utf8(_) => base64_decoded(input) matches Some(b) && !valid_utf8(b),
    }
}

/// The lines of a subscription: the decoded text without trailing white
/// space, split at each line feed.
pub open spec fn subscription_lines(text: Seq<char>) -> Seq<Seq<char>> {
    split_on(trim_end(text), '\n')
}

/// Decodes a base64 text into the UTF-8 text it encodes.
pub fn decode_base64_text(input: &str) -> (r: Result<String, TextDecodeError>)
    ensures
        match r {
            Ok(s) => base64_text(input@) == Some(s@),
            Err(e) => base64_text(input@) is None && base64_text_error_is(input@, e),
        },
{
    match decode_base64(input) {
        Ok(bytes) => match string_from_utf8(bytes) {
            Ok(s) => Ok(s),
            Err(e) => Err(TextDecodeError::Utf8(e)),
        },
        Err(e) => Err(TextDecodeError::Base64(e)),
    }
}

/// Decodes a subscription body (base64 of a text with one link per line)
/// into its lines.
pub fn decode_subscription(body: &str) -> (r: Result<Vec<String>, TextDecodeError>)
    ensures
        match r {
            Ok(lines) => base64_text(body@) matches Some(text) && {
                &&& lines@.len() == subscription_lines(text).len()
                &&& forall|i: int| 0 <= i < lines@.len() ==>
                    #[trigger] lines@[i]@ == subscription_lines(text)[i]
            },
            Err(e) => base64_text(body@) is None && base64_text_error_is(body@, e),
        },
{
    let text = decode_base64_text(body)?;
    let trimmed = trim_end_of(text.as_str());
    Ok(split_by(trimmed.as_str(), '\n'))
}

/// The lines of a subscription hold no line feed, and joined back with line
/// feeds they give the decoded text without its trailing white space.
pub proof fn lemma_subscription_lines(text: Seq<char>)
    ensures
        join_with(subscription_lines(text), '\n') == trim_end(text),
        forall|i: int| 0 <= i < subscription_lines(text).len() ==> !(#[trigger] subscription_lines(text)[i]).contains('\n'),
        subscription_lines(text).len() >= 1,
        trim_end(text).len() > 0 ==> !crate::text::is_white_space(trim_end(text).last()),
{
    lemma_split_join(trim_end(text), '\n');
    lemma_split_pieces_free_of_sep(trim_end(text), '\n');
    lemma_trim_end(text);
}

} // verus!
