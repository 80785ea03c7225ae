//! The closed error taxonomy of the library.

use vstd::prelude::*;

verus! {

/// Every failure the library reports falls in one of these classes.
///
/// - `Missing`: an expected resource or secret is absent.
/// - `BadHttpRequest`: transport failure or a non-success HTTP status.
/// - `BadToken`: the credential was rejected by the remote API, or an
///   authentication tag failed to verify during decryption.
/// - `BadRequest`: a storage-layer failure.
/// - `BadFormatting`: a parse, encode or decode failure, including a
///   malformed encrypted-token structure.
/// - `Forbidden`: a cryptographic or secure-storage operation was refused.
#[derive(Debug)]
pub enum ErrorType {
    Missing(String),
    BadHttpRequest(String),
    BadToken(String),
    BadRequest(String),
    BadFormatting(String),
    Forbidden(String),
}

/// The class of an `ErrorType`, with the message stripped.  Contracts state
/// which class a function reports; the message text is free-form.
#[derive(Clone, Copy, PartialEq, Eq, Structural, Debug)]
pub enum ErrClass {
    Missing,
    BadHttpRequest,
    BadToken,
    BadRequest,
    BadFormatting,
    Forbidden,
}

impl ErrorType {
    /// The class of this error.
    pub open spec fn spec_class(&self) -> ErrClass {
        match self {
            ErrorType::Missing(_) => ErrClass::Missing,
            ErrorType::BadHttpRequest(_) => ErrClass::BadHttpRequest,
            ErrorType::BadToken(_) => ErrClass::BadToken,
            ErrorType::BadRequest(_) => ErrClass::BadRequest,
            ErrorType::BadFormatting(_) => ErrClass::BadFormatting,
            ErrorType::Forbidden(_) => ErrClass::Forbidden,
        }
    }

    /// The class of this error, as an executable value.
    pub fn class(&self) -> (r: ErrClass)
        ensures
            r == self.spec_class(),
    {
        match self {
            ErrorType::Missing(_) => ErrClass::Missing,
            ErrorType::BadHttpRequest(_) => ErrClass::BadHttpRequest,
            ErrorType::BadToken(_) => ErrClass::BadToken,
            ErrorType::BadRequest(_) => ErrClass::BadRequest,
            ErrorType::BadFormatting(_) => ErrClass::BadFormatting,
            ErrorType::Forbidden(_) => ErrClass::Forbidden,
        }
    }

    /// The message carried by the error.
    pub fn message(&self) -> (r: String)
        ensures
            r@ == self.spec_message(),
    {
        match self {
            ErrorType::Missing(m) => m.clone(),
            ErrorType::BadHttpRequest(m) => m.clone(),
            ErrorType::BadToken(m) => m.clone(),
            ErrorType::BadRequest(m) => m.clone(),
            ErrorType::BadFormatting(m) => m.clone(),
            ErrorType::Forbidden(m) => m.clone(),
        }
    }

    pub open spec fn spec_message(&self) -> Seq<char> {
        match self {
            ErrorType::Missing(m) => m@,
            ErrorType::BadHttpRequest(m) => m@,
            ErrorType::BadToken(m) => m@,
            ErrorType::BadRequest(m) => m@,
            ErrorType::BadFormatting(m) => m@,
            ErrorType::Forbidden(m) => m@,
        }
    }
}

} // verus!
