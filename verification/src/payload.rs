//! Image payloads: an image travels through a session as a data URL whose
//! payload is the base64 text of the image's bytes.

use crate::text::{after_first, find_from, owned, split, split_on, starts_with};
use vstd::prelude::*;
use vstd::string::*;

verus! {

/// The error that `base64` reports for text that is not base64.
#[verifier::external_type_specification]
#[verifier::external_body]
pub struct ExDecodeError(base64::DecodeError);

/// The standard, padded base64 text of `bytes`.
pub uninterp spec fn base64_text(bytes: Seq<u8>) -> Seq<char>;

/// The bytes that `text` is the standard, padded base64 text of; `None` for
/// text that is not.
pub uninterp spec fn base64_bytes(text: Seq<char>) -> Option<Seq<u8>>;

/// The length of the padded base64 text of `len` bytes: four characters for
/// every three bytes or part of three.
pub open spec fn base64_len(len: nat) -> nat {
    4 * ((len + 2) / 3)
}

/// Calls `base64::Engine::encode` on the `STANDARD` engine. The crate
/// computes the text from the bytes alone; it panics when the length of the
/// text does not fit in `usize`, which the precondition rules out.
#[verifier::external_body]
pub(crate) fn base64_encode(bytes: &[u8]) -> (r: String)
    requires
        base64_len(bytes@.len()) <= usize::MAX,
    ensures
        r@ == base64_text(bytes@),
{
    base64::Engine::encode(&base64::engine::general_purpose::STANDARD, bytes)
}

/// Calls `base64::Engine::decode` on the `STANDARD` engine. The crate
/// returns the decoded bytes, or an error when the text is not padded
/// base64 of the standard alphabet; which of the two is decided by the text
/// alone.
#[verifier::external_body]
fn base64_decode(text: &str) -> (r: Result<Vec<u8>, base64::DecodeError>)
    ensures
        match r {
            Ok(bytes) => base64_bytes(text@) == Some(bytes@),
            Err(_) => base64_bytes(text@) is None,
        },
{
    base64::Engine::decode(&base64::engine::general_purpose::STANDARD, text)
}

/// Why the image of a session could not be read back.
#[derive(Clone, Copy, Debug, PartialEq, Eq, Structural)]
pub enum PayloadError {
    /// The text is no data URL of an image.
    NotAnImage,
    /// The data URL has no comma, so no payload.
    NoPayload,
    /// The payload is not base64.
    NotBase64,
}

/// The data URL of a PNG image with the given bytes.
pub open spec fn image_data_url(bytes: Seq<u8>) -> Seq<char> {
    "data:image/png;base64,"@ + base64_text(bytes)
}

/// Whether `url` is the data URL of an image of any kind.
pub open spec fn is_image_url(url: Seq<char>) -> bool {
    "data:image"@.is_prefix_of(url)
}

/// The payload of the image data URL `url` as the engine reads it: all that
/// follows the first comma.
pub open spec fn payload_text(url: Seq<char>) -> Option<Seq<char>> {
    if is_image_url(url) {
        after_first(url, ',')
    } else {
        None
    }
}

/// The payload of the image data URL `url` as the exporter reads it: what
/// stands between the first comma and the second, or the end.
pub open spec fn export_payload_text(url: Seq<char>) -> Result<Seq<char>, PayloadError> {
    if !is_image_url(url) {
        Err(PayloadError::NotAnImage)
    } else if split_on(url, ',').len() < 2 {
        Err(PayloadError::NoPayload)
    } else {
        Ok(split_on(url, ',')[1])
    }
}

/// What the exporter writes to a file for the image data URL `url`, given
/// what its payload decodes to.
pub open spec fn export_bytes(url: Seq<char>) -> Result<Seq<u8>, PayloadError> {
    match export_payload_text(url) {
        Err(e) => Err(e),
        Ok(text) => match base64_bytes(text) {
            Some(bytes) => Ok(bytes),
            None => Err(PayloadError::NotBase64),
        },
    }
}

/// The data URL under which a session keeps a PNG image.
pub fn encode_image_data_url(bytes: &[u8]) -> (r: String)
    requires
        base64_len(bytes@.len()) <= usize::MAX,
    ensures
        r@ == image_data_url(bytes@),
{
    let mut r = owned("data:image/png;base64,");
    let text = base64_encode(bytes);
    r.append(text.as_str());
    r
}

/// The payload of an image data URL: all that follows its first comma.
/// `None` when the text does not begin with `data:image` or has no comma.
pub fn image_payload(url: &str) -> (r: Option<&str>)
    ensures
        r.deep_view() == payload_text(url@),
{
    if !starts_with(url, "data:image") {
        return None;
    }
    let n = url.unicode_len();
    let comma = find_from(url, ',', 0);
    assert(url@.subrange(0, n as int) =~= url@);
    if comma == n {
        None
    } else {
        Some(url.substring_char(comma + 1, n))
    }
}

/// The payload of an image data URL as the exporter takes it: the second of
/// the pieces between commas.
pub fn export_payload(url: &str) -> (r: Result<&str, PayloadError>)
    ensures
        match r {
            Ok(text) => export_payload_text(url@) == Ok::<Seq<char>, PayloadError>(text@),
            Err(e) => export_payload_text(url@) == Err::<Seq<char>, PayloadError>(e),
        },
{
    if !starts_with(url, "data:image") {
        return Err(PayloadError::NotAnImage);
    }
    let pieces = split(url, ',');
    if pieces.len() < 2 {
        Err(PayloadError::NoPayload)
    } else {
        let piece: &str = pieces[1];
        assert(pieces.deep_view()[1] == piece@);
        Ok(piece)
    }
}

/// The bytes of a payload, given what the base64 decoder made of it: the
/// bytes where it gave any, the failure to report where it gave none.
pub fn payload_bytes(decoded: Option<Vec<u8>>) -> (r: Result<Vec<u8>, PayloadError>)
    ensures
        match decoded {
            Some(bytes) => r == Ok::<Vec<u8>, PayloadError>(bytes),
            None => r == Err::<Vec<u8>, PayloadError>(PayloadError::NotBase64),
        },
{
    match decoded {
        Some(bytes) => Ok(bytes),
        None => Err(PayloadError::NotBase64),
    }
}

/// The bytes that a payload is the base64 text of, if it is that of any.
fn decoded_payload(text: &str) -> (r: Option<Vec<u8>>)
    ensures
        match r {
            Some(bytes) => base64_bytes(text@) == Some(bytes@),
            None => base64_bytes(text@) is None,
        },
{
    match base64_decode(text) {
        Ok(bytes) => Some(bytes),
        Err(_) => None,
    }
}

/// The bytes to write to a file for an image data URL, or why there are
/// none: the text is no image data URL, it has no payload, or the payload
/// is not base64.
pub fn decode_export_image(url: &str) -> (r: Result<Vec<u8>, PayloadError>)
    ensures
        match r {
            Ok(bytes) => export_bytes(url@) == Ok::<Seq<u8>, PayloadError>(bytes@),
            Err(e) => export_bytes(url@) == Err::<Seq<u8>, PayloadError>(e),
        },
{
    match export_payload(url) {
        Err(e) => Err(e),
        Ok(text) => payload_bytes(decoded_payload(text)),
    }
}

/// The image that a session holds, as bytes: `Ok(None)` when the session's
/// image text holds no payload to decode, an error when the payload is not
/// base64.
pub open spec fn held_image(url: Seq<char>) -> Result<Option<Seq<u8>>, PayloadError> {
    match payload_text(url) {
        None => Ok(None),
        Some(text) => match base64_bytes(text) {
            Some(bytes) => Ok(Some(bytes)),
            None => Err(PayloadError::NotBase64),
        },
    }
}

/// The bytes of the image behind a session's data URL.
pub fn decode_held_image(url: &str) -> (r: Result<Option<Vec<u8>>, PayloadError>)
    ensures
        match r {
            Ok(Some(bytes)) => held_image(url@) == Ok::<Option<Seq<u8>>, PayloadError>(
                Some(bytes@),
            ),
            Ok(None) => held_image(url@) == Ok::<Option<Seq<u8>>, PayloadError>(None),
            Err(e) => held_image(url@) == Err::<Option<Seq<u8>>, PayloadError>(e),
        },
{
    match image_payload(url) {
        None => Ok(None),
        Some(text) => match payload_bytes(decoded_payload(text)) {
            Ok(bytes) => Ok(Some(bytes)),
            Err(e) => Err(e),
        },
    }
}

} // verus!
