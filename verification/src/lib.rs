//! Native-side command bridge of a desktop application shell.
//!
//! Two independent, stateless components:
//! - a locale resolver, which decides from environment and operating-system
//!   probe output whether the interface language is Chinese or the default;
//! - an OCR relay, which decodes a base64 image payload, fixes the shape of
//!   the outbound multipart request, and parses the remote service's JSON
//!   response.

pub mod language;
pub mod ocr;
