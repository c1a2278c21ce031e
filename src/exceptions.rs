//! Errors of the library.
use vstd::prelude::*;

verus! {

/// The error that base64 decoding reports.
#[verifier::external_type_specification]
#[verifier::external_body]
pub struct ExDecodeError(base64::DecodeError);

/// The error that a UTF-8 check on bytes reports.
#[verifier::external_type_specification]
#[verifier::external_body]
pub struct ExUtf8Error(core::str::Utf8Error);

/// What can go wrong while storing or materializing a cached document.
/// A missing or expired entry is not an error.
#[derive(Debug)]
pub enum RustySoapError {
    /// A payload carried the expected version tag, but what follows it is not
    /// valid base64.
    Base64Error(base64::DecodeError),
    /// The persistent store could not be reached, or a statement failed.
    SQLiteError(String),
    /// Decoded bytes are not valid UTF-8 text.
    UTF8ConversionError(core::str::Utf8Error),
    /// The backing file of the persistent store could not be provisioned.
    FileError(String),
    /// The cause could not be determined.
    Empty,
}

/// A general error, with its message.
#[derive(Debug)]
pub struct Error(pub String);

/// A document that could not be parsed.
#[derive(Debug)]
pub struct XMLParseError {
    pub filename: String,
    pub sourceline: String,
}

/// A transport answer that was not a success.
#[derive(Debug)]
pub struct TransportError {
    pub status_code: u32,
    pub content: String,
}

/// A name that could not be resolved.
#[derive(Debug)]
pub struct LookupError {
    pub qname: String,
    pub item_name: String,
    pub location: String,
}

/// A SOAP fault returned by a service.
#[derive(Debug)]
pub struct Fault {
    pub message: String,
    pub code: String,
    pub actor: String,
    pub detail: String,
    pub subcodes: String,
}

/// A value that does not satisfy its schema.
#[derive(Debug)]
pub struct ValidationError {
    pub path: String,
}

} // verus!
