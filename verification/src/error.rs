//! The errors of this crate.

use crate::field::Field;
use vstd::prelude::*;
use vstd::string::to_string_from_display_ensures;

verus! {

/// `serde_urlencoded::ser::Error`, as an opaque value: the form encoder's
/// report of what it could not represent.
#[verifier::external_type_specification]
#[verifier::external_body]
pub struct ExFormError(serde_urlencoded::ser::Error);

/// Why a reply could not be decoded, without the parser's own report.
pub enum DecodeFailure {
    InvalidUtf8,
    Syntax,
    NotAnObject,
    MissingField(Field),
    MismatchedField(Field),
}

/// Why a reply could not be decoded.
#[derive(Debug)]
pub enum DecodeError {
    /// The bytes are not UTF-8.
    InvalidUtf8,
    /// The text is not JSON; the parser's error says where.
    Syntax(serde_json::Error),
    /// The document is JSON, but no object.
    NotAnObject,
    /// A member that must be present is not.
    MissingField(Field),
    /// A member holds something other than what it must.
    MismatchedField(Field),
}

impl View for DecodeError {
    type V = DecodeFailure;

    open spec fn view(&self) -> DecodeFailure {
        match self {
            DecodeError::InvalidUtf8 => DecodeFailure::InvalidUtf8,
            DecodeError::Syntax(_) => DecodeFailure::Syntax,
            DecodeError::NotAnObject => DecodeFailure::NotAnObject,
            DecodeError::MissingField(f) => DecodeFailure::MissingField(*f),
            DecodeError::MismatchedField(f) => DecodeFailure::MismatchedField(*f),
        }
    }
}

impl DecodeError {
    /// Whether `text` is the message of this error.
    pub open spec fn renders(self, text: Seq<char>) -> bool {
        match self {
            DecodeError::InvalidUtf8 => text == "response is not valid UTF-8"@,
            DecodeError::Syntax(e) => exists|detail: String| {
                &&& #[trigger] to_string_from_display_ensures::<serde_json::Error>(&e, detail)
                &&& text == detail@
            },
            DecodeError::NotAnObject => text == "response is not a JSON object"@,
            DecodeError::MissingField(f) => text == "missing field `"@ + f.spec_name() + "`"@,
            DecodeError::MismatchedField(f) => {
                text == "invalid type for field `"@ + f.spec_name() + "`"@
            },
        }
    }

    /// The message of this error.
    pub fn message(&self) -> (r: String)
        ensures
            self.renders(r@),
    {
        match self {
            DecodeError::InvalidUtf8 => String::from_str("response is not valid UTF-8"),
            DecodeError::Syntax(e) => e.to_string(),
            DecodeError::NotAnObject => String::from_str("response is not a JSON object"),
            DecodeError::MissingField(f) => {
                let text = String::from_str("missing field `");
                text.concat(f.name()).concat("`")
            },
            DecodeError::MismatchedField(f) => {
                let text = String::from_str("invalid type for field `");
                text.concat(f.name()).concat("`")
            },
        }
    }
}

/// What went wrong, without the outside errors' own reports.
pub enum Failure {
    Encode,
    Decode(DecodeFailure),
    Transport(Seq<char>),
    NotDelivered(Seq<char>),
}

/// The errors that sending a message and waiting for its delivery can end in.
#[derive(Debug)]
pub enum TWRSError {
    /// The request could not be put into its wire format.
    URLEncodeFailure(serde_urlencoded::ser::Error),
    /// A reply of the provider could not be decoded.
    URLDecodeFailure(DecodeError),
    /// The HTTP exchange itself failed; holds the transport's report.
    HTTPRequestError(String),
    /// The message ended in a status other than `delivered`; holds that status.
    NotDelivered(String),
}

impl View for TWRSError {
    type V = Failure;

    open spec fn view(&self) -> Failure {
        match self {
            TWRSError::URLEncodeFailure(_) => Failure::Encode,
            TWRSError::URLDecodeFailure(e) => Failure::Decode(e@),
            TWRSError::HTTPRequestError(report) => Failure::Transport(report@),
            TWRSError::NotDelivered(status) => Failure::NotDelivered(status@),
        }
    }
}

impl TWRSError {
    /// Whether `text` is the message of this error.
    pub open spec fn renders(self, text: Seq<char>) -> bool {
        match self {
            TWRSError::URLEncodeFailure(e) => exists|detail: String| {
                &&& #[trigger] to_string_from_display_ensures::<serde_urlencoded::ser::Error>(
                    &e,
                    detail,
                )
                &&& text == "Error while serializing URL to encoded string: "@ + detail@
            },
            TWRSError::URLDecodeFailure(e) => exists|detail: Seq<char>| {
                &&& #[trigger] e.renders(detail)
                &&& text == "Error while serializing URL to encoded string: "@ + detail
            },
            TWRSError::HTTPRequestError(report) => {
                text == "Error while sending HTTP POST: "@ + report@
            },
            TWRSError::NotDelivered(status) => text == "Error message not delivered: "@ + status@,
        }
    }

    /// The message of this error: what went wrong, then the detail.
    pub fn message(&self) -> (r: String)
        ensures
            self.renders(r@),
    {
        match self {
            TWRSError::URLEncodeFailure(e) => {
                let detail = e.to_string();
                let text = String::from_str("Error while serializing URL to encoded string: ");
                text.concat(detail.as_str())
            },
            TWRSError::URLDecodeFailure(e) => {
                let detail = e.message();
                let text = String::from_str("Error while serializing URL to encoded string: ");
                text.concat(detail.as_str())
            },
            TWRSError::HTTPRequestError(report) => {
                let text = String::from_str("Error while sending HTTP POST: ");
                text.concat(report.as_str())
            },
            TWRSError::NotDelivered(status) => {
                let text = String::from_str("Error message not delivered: ");
                text.concat(status.as_str())
            },
        }
    }
}

} // verus!
