//! OCR relay.
//!
//! The relay accepts a base64-encoded image payload and hands the remote
//! service's JSON answer back unchanged. Its verified logic is the decision
//! chain around one network round trip that the host shell performs:
//! decode the payload (a decode failure is terminal, nothing is sent), fix
//! the exact shape of the outbound multipart request and its header table,
//! and turn the transport outcome into either the parsed JSON value or one
//! error of the taxonomy.

use vstd::prelude::*;

verus! {

/// The relay's error taxonomy. Each variant carries the opaque diagnostic
/// text of its cause; callers treat the text as display material.
#[derive(Debug)]
pub enum OcrError {
    /// Malformed base64 input, or a response body that is not valid JSON.
    DecodeError(String),
    /// The multipart part could not be built.
    ConstructionError(String),
    /// The network request could not be completed.
    TransportError(String),
}

impl OcrError {
    /// The diagnostic text carried by the error.
    pub open spec fn message_spec(self) -> Seq<char> {
        match self {
            OcrError::DecodeError(s) => s@,
            OcrError::ConstructionError(s) => s@,
            OcrError::TransportError(s) => s@,
        }
    }

    /// The opaque diagnostic string handed to the caller, as the command
    /// channel expects it.
    pub fn message(&self) -> (r: String)
        ensures
            r@ == self.message_spec(),
    {
        match self {
            OcrError::DecodeError(s) => s.clone(),
            OcrError::ConstructionError(s) => s.clone(),
            OcrError::TransportError(s) => s.clone(),
        }
    }
}

/// What `base64::decode` yields on the given text: the decoded bytes, or
/// `None` where the text is not valid base64. The outcome depends on the
/// text alone.
pub uninterp spec fn base64_decoding(text: Seq<char>) -> Option<Seq<u8>>;

/// Relies on `base64::decode` (standard alphabet, padded): whether the text
/// decodes, and to which bytes, depends on the text alone.
#[verifier::external_body]
fn decode_base64(text: &str) -> (r: Result<Vec<u8>, String>)
    ensures
        r matches Ok(v) ==> base64_decoding(text@) == Some(v@),
        r is Ok <==> base64_decoding(text@) is Some,
{
    match base64::decode(text) {
        Ok(v) => Ok(v),
        Err(e) => Err(e.to_string()),
    }
}

#[verifier::external_type_specification]
#[verifier::external_body]
pub struct ExJsonValue(serde_json::Value);

/// What `serde_json::from_slice::<serde_json::Value>` yields on the given
/// bytes: the parsed JSON value, or `None` where the bytes are not valid
/// JSON. The outcome depends on the bytes alone.
pub uninterp spec fn json_decoding(bytes: Seq<u8>) -> Option<serde_json::Value>;

/// Relies on `serde_json::from_slice::<serde_json::Value>`: whether the
/// bytes parse, and to which value, depends on the bytes alone.
#[verifier::external_body]
fn parse_json(bytes: &[u8]) -> (r: Result<serde_json::Value, String>)
    ensures
        r matches Ok(v) ==> json_decoding(bytes@) == Some(v),
        r is Ok <==> json_decoding(bytes@) is Some,
{
    match serde_json::from_slice::<serde_json::Value>(bytes) {
        Ok(v) => Ok(v),
        Err(e) => Err(e.to_string()),
    }
}

/// Decode the base64 image payload to the raw bytes that are sent. This is
/// the relay's first step: on malformed base64 it fails with `DecodeError`,
/// terminally, so that no transport attempt follows.
pub fn decode_image_payload(base64_data: &str) -> (r: Result<Vec<u8>, OcrError>)
    ensures
        r matches Ok(v) ==> base64_decoding(base64_data@) == Some(v@),
        r is Ok <==> base64_decoding(base64_data@) is Some,
        r matches Err(e) ==> e is DecodeError,
{
    match decode_base64(base64_data) {
        Ok(v) => Ok(v),
        Err(cause) => Err(OcrError::DecodeError(cause)),
    }
}

/// Parse the remote service's response body. The parsed value is returned
/// unmodified; a body that is not valid JSON fails with `DecodeError`.
pub fn parse_ocr_response(body: &[u8]) -> (r: Result<serde_json::Value, OcrError>)
    ensures
        r matches Ok(v) ==> json_decoding(body@) == Some(v),
        r is Ok <==> json_decoding(body@) is Some,
        r matches Err(e) ==> e is DecodeError,
{
    match parse_json(body) {
        Ok(v) => Ok(v),
        Err(cause) => Err(OcrError::DecodeError(cause)),
    }
}

/// The fixed header table sent with every relay request, in order. The
/// values mimic a specific browser session and are static configuration,
/// never derived from caller input.
pub open spec fn relay_headers() -> Seq<(Seq<char>, Seq<char>)> {
    seq![
        ("accept"@, "*/*"@),
        ("accept-language"@, "zh-CN,zh;q=0.9,en;q=0.8,en-GB;q=0.7,en-US;q=0.6"@),
        ("sec-ch-ua"@, "\"Microsoft Edge\";v=\"137\", \"Chromium\";v=\"137\", \"Not/A)Brand\";v=\"24\""@),
        ("sec-ch-ua-mobile"@, "?0"@),
        ("sec-ch-ua-platform"@, "\"Windows\""@),
        ("sec-fetch-dest"@, "empty"@),
        ("sec-fetch-mode"@, "cors"@),
        ("sec-fetch-site"@, "same-origin"@),
        ("referrer"@, "https://www.olmocr.com/zh"@),
    ]
}

/// The header table as name–value pairs, exactly `relay_headers()`.
pub fn relay_header_table() -> (r: Vec<(&'static str, &'static str)>)
    ensures
        r@.len() == relay_headers().len(),
        forall|i: int| 0 <= i < r@.len() ==> ((#[trigger] r@[i]).0@ == relay_headers()[i].0
            && r@[i].1@ == relay_headers()[i].1),
{
    let mut v: Vec<(&'static str, &'static str)> = Vec::new();
    v.push(("accept", "*/*"));
    v.push(("accept-language", "zh-CN,zh;q=0.9,en;q=0.8,en-GB;q=0.7,en-US;q=0.6"));
    v.push(("sec-ch-ua", "\"Microsoft Edge\";v=\"137\", \"Chromium\";v=\"137\", \"Not/A)Brand\";v=\"24\""));
    v.push(("sec-ch-ua-mobile", "?0"));
    v.push(("sec-ch-ua-platform", "\"Windows\""));
    v.push(("sec-fetch-dest", "empty"));
    v.push(("sec-fetch-mode", "cors"));
    v.push(("sec-fetch-site", "same-origin"));
    v.push(("referrer", "https://www.olmocr.com/zh"));
    v
}

/// The multipart form carries exactly one part, under this name.
pub fn multipart_part_name() -> (r: &'static str)
    ensures
        r@ == "file"@,
{
    "file"
}

/// The fixed filename declared for the image part.
pub fn multipart_file_name() -> (r: &'static str)
    ensures
        r@ == "image.png"@,
{
    "image.png"
}

/// The declared content type of the image part. Deliberately fixed to PNG
/// whatever the payload's actual encoding, to match the remote service's
/// expectations.
pub fn multipart_content_type() -> (r: &'static str)
    ensures
        r@ == "image/png"@,
{
    "image/png"
}

/// Turn the transport outcome of the round trip into the relay's answer:
/// a completed request has its body parsed as JSON and returned unchanged;
/// a transport failure is reported as `TransportError` carrying the cause
/// text, and no JSON is produced.
pub fn relay_outcome(transport: Result<Vec<u8>, String>) -> (r: Result<
    serde_json::Value,
    OcrError,
>)
    ensures
        transport matches Ok(body) ==> {
            &&& r matches Ok(v) ==> json_decoding(body@) == Some(v)
            &&& r is Ok <==> json_decoding(body@) is Some
            &&& r matches Err(e) ==> e is DecodeError
        },
        transport matches Err(cause) ==> r matches Err(e) && e matches OcrError::TransportError(m)
            && m@ == cause@,
{
    match transport {
        Ok(body) => parse_ocr_response(body.as_slice()),
        Err(cause) => Err(OcrError::TransportError(cause)),
    }
}

} // verus!
