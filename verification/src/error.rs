//! The fixed error vocabulary of the persistence bridge.
//!
//! Every operation returns one of these typed errors; the response envelope
//! carries the discriminable `ErrorKind` plus a message, so a caller across
//! the process boundary can tell "not found" from "backend unavailable"
//! without parsing text.

use vstd::prelude::*;

verus! {

use vstd::string::StringExecFns;

/// A typed failure of the persistence bridge.
#[derive(Debug)]
pub enum Error {
    /// The execution context (session or application handle) is unavailable.
    ContextFail,
    /// The store connection could not be established.
    StoreInit,
    /// The backend failed during an operation.
    StoreFail,
    /// The target id is absent from its collection.
    NotFound,
    /// Marshaling failed: a required field is absent from the record.
    ConversionMissing { field: String },
    /// Marshaling failed: a field holds a value of the wrong type.
    ConversionMismatch { field: String },
    /// A filter names an unsupported operation or field.
    FilterInvalid,
    /// The inbound parameter payload is malformed.
    PayloadInvalid,
}

/// The mathematical value of an `Error`.
#[verifier::ext_equal]
pub enum ErrorV {
    ContextFail,
    StoreInit,
    StoreFail,
    NotFound,
    ConversionMissing { field: Seq<char> },
    ConversionMismatch { field: Seq<char> },
    FilterInvalid,
    PayloadInvalid,
}

impl View for Error {
    type V = ErrorV;

    open spec fn view(&self) -> ErrorV {
        match self {
            Error::ContextFail => ErrorV::ContextFail,
            Error::StoreInit => ErrorV::StoreInit,
            Error::StoreFail => ErrorV::StoreFail,
            Error::NotFound => ErrorV::NotFound,
            Error::ConversionMissing { field } => ErrorV::ConversionMissing { field: field@ },
            Error::ConversionMismatch { field } => ErrorV::ConversionMismatch { field: field@ },
            Error::FilterInvalid => ErrorV::FilterInvalid,
            Error::PayloadInvalid => ErrorV::PayloadInvalid,
        }
    }
}

/// The programmatically discriminable kind of an error.
#[derive(Clone, Copy, PartialEq, Eq, Structural, Debug)]
pub enum ErrorKind {
    ContextFail,
    StoreInit,
    StoreFail,
    NotFound,
    ConversionFail,
    FilterInvalid,
    PayloadInvalid,
}

/// The kind an error is reported under: both marshaling failures are
/// `ConversionFail`.
pub open spec fn spec_kind(e: ErrorV) -> ErrorKind {
    match e {
        ErrorV::ContextFail => ErrorKind::ContextFail,
        ErrorV::StoreInit => ErrorKind::StoreInit,
        ErrorV::StoreFail => ErrorKind::StoreFail,
        ErrorV::NotFound => ErrorKind::NotFound,
        ErrorV::ConversionMissing { .. } => ErrorKind::ConversionFail,
        ErrorV::ConversionMismatch { .. } => ErrorKind::ConversionFail,
        ErrorV::FilterInvalid => ErrorKind::FilterInvalid,
        ErrorV::PayloadInvalid => ErrorKind::PayloadInvalid,
    }
}

/// The human-readable message of an error.
pub open spec fn spec_message(e: ErrorV) -> Seq<char> {
    match e {
        ErrorV::ContextFail => "execution context unavailable"@,
        ErrorV::StoreInit => "store connection failed"@,
        ErrorV::StoreFail => "store operation failed"@,
        ErrorV::NotFound => "entity not found"@,
        ErrorV::ConversionMissing { field } => "missing field "@ + field,
        ErrorV::ConversionMismatch { field } => "type mismatch "@ + field,
        ErrorV::FilterInvalid => "invalid filter"@,
        ErrorV::PayloadInvalid => "invalid payload"@,
    }
}

impl Error {
    /// The kind this error is discriminated under.
    pub fn kind(&self) -> (k: ErrorKind)
        ensures
            k == spec_kind(self@),
    {
        match self {
            Error::ContextFail => ErrorKind::ContextFail,
            Error::StoreInit => ErrorKind::StoreInit,
            Error::StoreFail => ErrorKind::StoreFail,
            Error::NotFound => ErrorKind::NotFound,
            Error::ConversionMissing { .. } => ErrorKind::ConversionFail,
            Error::ConversionMismatch { .. } => ErrorKind::ConversionFail,
            Error::FilterInvalid => ErrorKind::FilterInvalid,
            Error::PayloadInvalid => ErrorKind::PayloadInvalid,
        }
    }

    /// The message of this error.
    pub fn message(&self) -> (m: String)
        ensures
            m@ == spec_message(self@),
    {
        match self {
            Error::ContextFail => String::from_str("execution context unavailable"),
            Error::StoreInit => String::from_str("store connection failed"),
            Error::StoreFail => String::from_str("store operation failed"),
            Error::NotFound => String::from_str("entity not found"),
            Error::ConversionMissing { field } => {
                let mut m = String::from_str("missing field ");
                m.append(field.as_str());
                m
            },
            Error::ConversionMismatch { field } => {
                let mut m = String::from_str("type mismatch ");
                m.append(field.as_str());
                m
            },
            Error::FilterInvalid => String::from_str("invalid filter"),
            Error::PayloadInvalid => String::from_str("invalid payload"),
        }
    }

}

} // verus!
