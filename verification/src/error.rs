//! The failures that the library reports.

use vstd::prelude::*;
use vstd::string::*;

verus! {

/// The engine's error, `opaque_ke::errors::ProtocolError`: carried through,
/// never looked into.
#[verifier::external_type_specification]
#[verifier::external_body]
#[verifier::reject_recursive_types(T)]
pub struct ExProtocolError<T>(opaque_ke::errors::ProtocolError<T>);

/// The decoder's error, `base64::DecodeError`: carried through, never looked
/// into.
#[verifier::external_type_specification]
#[verifier::external_body]
pub struct ExDecodeError(base64::DecodeError);

/// What went wrong, in the broadest terms.
#[derive(Clone, Copy, Debug, PartialEq, Eq, Structural)]
pub enum ErrorKind {
    /// The cryptographic engine rejected a value or detected tampering.
    Protocol,
    /// A text field was not valid base64.
    Encoding,
    /// A configuration value was rejected before it was used.
    Internal,
}

/// A failure, with the step or field at which it arose (`context`) and the
/// underlying reason in words (`cause`).
#[derive(Debug)]
pub enum Error {
    Protocol { context: &'static str, cause: String },
    Encoding { context: &'static str, cause: String },
    Internal { context: &'static str, cause: String },
}

/// The engine's wording for a failure of the key-stretching function, the
/// only cause of an internal failure.
pub const KSF_FAILURE_WORDS: &'static str = "Computing the key stretching function failed";

/// Whether `text` is what some error of the engine displays as.
pub open spec fn engine_words(text: String) -> bool {
    exists|e: opaque_ke::errors::ProtocolError|
        #[trigger] to_string_from_display_ensures::<opaque_ke::errors::ProtocolError>(&e, text)
}

/// Whether `text` is what some error of the decoder displays as.
pub open spec fn decoder_words(text: String) -> bool {
    exists|e: base64::DecodeError|
        #[trigger] to_string_from_display_ensures::<base64::DecodeError>(&e, text)
}

/// The opening words of a message, by kind of failure.
pub open spec fn message_prefix(kind: ErrorKind) -> Seq<char> {
    match kind {
        ErrorKind::Protocol => "Opaque protocol error at \""@,
        ErrorKind::Encoding => "base64 decoding failed at \""@,
        ErrorKind::Internal => "Internal error at \""@,
    }
}

impl Error {
    pub open spec fn spec_kind(&self) -> ErrorKind {
        match self {
            Error::Protocol { .. } => ErrorKind::Protocol,
            Error::Encoding { .. } => ErrorKind::Encoding,
            Error::Internal { .. } => ErrorKind::Internal,
        }
    }

    pub open spec fn spec_context(&self) -> Seq<char> {
        match self {
            Error::Protocol { context, .. } => context@,
            Error::Encoding { context, .. } => context@,
            Error::Internal { context, .. } => context@,
        }
    }

    pub open spec fn spec_cause(&self) -> Seq<char> {
        match self {
            Error::Protocol { cause, .. } => cause@,
            Error::Encoding { cause, .. } => cause@,
            Error::Internal { cause, .. } => cause@,
        }
    }

    /// Whether the cause is in the words of the failure's source: for a
    /// protocol failure the text that some error of the engine displays as,
    /// for an encoding failure the text that some error of the decoder
    /// displays as, for an internal failure the engine's wording for a
    /// key-stretching failure.
    pub open spec fn cause_in_source_words(&self) -> bool {
        match *self {
            Error::Protocol { cause, .. } => engine_words(cause),
            Error::Encoding { cause, .. } => decoder_words(cause),
            Error::Internal { cause, .. } => cause@ == KSF_FAILURE_WORDS@,
        }
    }

    /// Whether this is the failure of the given kind at the given place, with
    /// its cause in the words of its source.
    pub open spec fn reports(&self, kind: ErrorKind, context: Seq<char>) -> bool {
        &&& self.spec_kind() == kind
        &&& self.spec_context() == context
        &&& self.cause_in_source_words()
    }

    /// The full text of the message: the prefix of the kind, the context in
    /// double quotes, a semicolon and the cause.
    pub open spec fn message_text(&self) -> Seq<char> {
        message_prefix(self.spec_kind()) + self.spec_context() + "\"; "@ + self.spec_cause()
    }

    #[verifier::when_used_as_spec(spec_kind)]
    pub fn kind(&self) -> (r: ErrorKind)
        ensures
            r == self.spec_kind(),
    {
        match self {
            Error::Protocol { .. } => ErrorKind::Protocol,
            Error::Encoding { .. } => ErrorKind::Encoding,
            Error::Internal { .. } => ErrorKind::Internal,
        }
    }

    pub fn context(&self) -> (r: &'static str)
        ensures
            r@ == self.spec_context(),
    {
        match self {
            Error::Protocol { context, .. } => context,
            Error::Encoding { context, .. } => context,
            Error::Internal { context, .. } => context,
        }
    }

    pub fn cause(&self) -> (r: &str)
        ensures
            r@ == self.spec_cause(),
    {
        match self {
            Error::Protocol { cause, .. } => cause.as_str(),
            Error::Encoding { cause, .. } => cause.as_str(),
            Error::Internal { cause, .. } => cause.as_str(),
        }
    }

    /// The human-readable message for this failure.
    pub fn message(&self) -> (r: String)
        ensures
            r@ == self.message_text(),
    {
        let prefix: &str = match self {
            Error::Protocol { .. } => "Opaque protocol error at \"",
            Error::Encoding { .. } => "base64 decoding failed at \"",
            Error::Internal { .. } => "Internal error at \"",
        };
        let mut text = prefix.to_owned();
        text.append(self.context());
        text.append("\"; ");
        text.append(self.cause());
        text
    }
}

/// A base64 failure at `context`, whose cause is the decoder's own wording.
pub fn from_base64_error(context: &'static str, error: &base64::DecodeError) -> (r: Error)
    ensures
        r matches Error::Encoding { context: c, cause }
            && c == context
            && to_string_from_display_ensures::<base64::DecodeError>(error, cause),
        r.reports(ErrorKind::Encoding, context@),
{
    let cause = error.to_string();
    let failure = Error::Encoding { context, cause };
    assert(decoder_words(cause)) by {
        let e = *error;
        assert(to_string_from_display_ensures::<base64::DecodeError>(&e, cause));
    }
    failure
}

/// An engine failure at `context`, whose cause is the engine's own wording.
pub fn from_protocol_error(context: &'static str, error: &opaque_ke::errors::ProtocolError) -> (r:
    Error)
    ensures
        r matches Error::Protocol { context: c, cause }
            && c == context
            && to_string_from_display_ensures::<opaque_ke::errors::ProtocolError>(error, cause),
        r.reports(ErrorKind::Protocol, context@),
{
    let cause = error.to_string();
    let failure = Error::Protocol { context, cause };
    assert(engine_words(cause)) by {
        let e = *error;
        assert(to_string_from_display_ensures::<opaque_ke::errors::ProtocolError>(&e, cause));
    }
    failure
}

} // verus!
