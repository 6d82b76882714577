//! Error kinds reported by the decoder.

use vstd::prelude::*;

verus! {

/// Header field of an AIS sentence whose integer parse can fail.
#[derive(Debug, Clone, Copy, PartialEq, Eq, Structural)]
pub enum AisField {
    FragmentCount,
    FragmentNumber,
}

/// A decode failure. Every error bubbles out of `decode_sentence`;
/// an incomplete multi-fragment transmission is not an error.
#[derive(Debug, Clone, PartialEq)]
pub enum ParseError {
    /// The checksum computed over the sentence body differs from the
    /// two hex digits given after `*`.
    ChecksumMismatch,
    /// No comma separator, or a malformed header.
    InvalidFormat,
    /// An armored payload character outside the permitted range.
    PayloadDecodeFailed,
    /// An integer header field that did not parse; carries the raw text.
    FieldParseFailed { field: AisField, raw: String },
    /// A sentence whose identifier has no handler here.
    UnsupportedSentence { header: String },
    /// An AIS message type that is known but not decoded here.
    UnsupportedMessageType { message_type: u8 },
    /// An AIS message type outside the recognized numbering.
    UnrecognizedMessageType { message_type: u8 },
}

/// Mathematical model of a `ParseError`: strings become character sequences.
pub enum ErrorModel {
    ChecksumMismatch,
    InvalidFormat,
    PayloadDecodeFailed,
    FieldParseFailed { field: AisField, raw: Seq<char> },
    UnsupportedSentence { header: Seq<char> },
    UnsupportedMessageType { message_type: u8 },
    UnrecognizedMessageType { message_type: u8 },
}

impl View for ParseError {
    type V = ErrorModel;

    open spec fn view(&self) -> ErrorModel {
        match self {
            ParseError::ChecksumMismatch => ErrorModel::ChecksumMismatch,
            ParseError::InvalidFormat => ErrorModel::InvalidFormat,
            ParseError::PayloadDecodeFailed => ErrorModel::PayloadDecodeFailed,
            ParseError::FieldParseFailed { field, raw } => ErrorModel::FieldParseFailed {
                field: *field,
                raw: raw@,
            },
            ParseError::UnsupportedSentence { header } => ErrorModel::UnsupportedSentence {
                header: header@,
            },
            ParseError::UnsupportedMessageType { message_type } =>
                ErrorModel::UnsupportedMessageType { message_type: *message_type },
            ParseError::UnrecognizedMessageType { message_type } =>
                ErrorModel::UnrecognizedMessageType { message_type: *message_type },
        }
    }
}

} // verus!
