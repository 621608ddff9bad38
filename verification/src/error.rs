//! Failures, and the class and message each one is reported under.

use vstd::prelude::*;
use vstd::string::*;

verus! {

/// Why the fields of a reply could not be taken over.
#[derive(Clone, Copy, Debug, PartialEq, Eq, Structural)]
pub enum UpdateFault {
    /// A field that should hold a decimal number holds something else.
    ParseFloatError,
    /// A field that should hold a whole number holds something else, or a
    /// number too large.
    ParseIntError,
    /// A field that is required is not there.
    MissingData,
}

/// A failure of the game engine, as plain values.
///
/// The four variants with a text hold the engine's full rendering of the
/// failure, since what caused them (the clock, the transport, a decoder) is
/// not ours to inspect.
#[derive(Debug, PartialEq, Eq)]
pub enum EngineError {
    /// The timestamp a game is opened with could not be established.
    TimeError(String),
    /// An HTTP round trip failed: the service could not be reached, or the
    /// connection broke before the body was read.
    RequestError(String),
    /// A response body was not the expected JSON.
    JsonParseError(String),
    /// The fields of a well-formed response could not be taken over, for the
    /// reason given.
    UpdateInfoError(UpdateFault, String),
    /// Data needed to go on (server address, session identifiers) is absent.
    NoDataFound,
    /// The servers of the requested region are down.
    ServersDown,
    /// The service reported an internal fault.
    TechnicalError,
    /// The session timed out on the service's side.
    TimeoutError,
    /// The service has no further question to ask.
    NoMoreQuestions,
    /// The service answered, but with a completion code the engine does not
    /// know. (A service that cannot be reached at all is a `RequestError`.)
    ConnectionError,
    /// There is no earlier question to go back to.
    CantGoBackAnyFurther,
    /// A text that names no answer.
    InvalidAnswer,
    /// A text that names no supported language.
    InvalidLanguage,
}

/// Everything an operation of this library can fail with.
#[derive(Debug, PartialEq, Eq)]
pub enum Error {
    /// The engine failed.
    AkiError(EngineError),
    /// A lock around a session was poisoned.
    PoisonError,
    /// The confidence of a guess is no finite number.
    InvalidConfidence,
}

/// The class a failure is reported under: one of eight named kinds, or one
/// of the two generic ones.
#[derive(Clone, Copy, Debug, PartialEq, Eq, Structural)]
pub enum ErrorKind {
    /// Going back was asked for at the first question.
    CantGoBackAnyFurther,
    /// A text names no answer.
    InvalidAnswer,
    /// A text names no supported language.
    InvalidLanguage,
    /// The service could not be reached, or what it answered names no known
    /// failure.
    ConnectionError,
    /// The service has no further question.
    NoMoreQuestions,
    /// A timing step could not be completed: the timestamp a game is opened
    /// with, or the session on the service's side.
    TimeoutError,
    /// The service reported an internal fault.
    TechnicalError,
    /// The service reported that the servers of the region are down.
    ServersDown,
    /// Generic: data that is required was missing.
    RuntimeError,
    /// Generic: a response body, or a field of it, could not be read as what
    /// it should be.
    ValueError,
}

impl EngineError {
    /// The class of an engine failure. Each named failure keeps its own
    /// kind. A round trip that failed is a connection failure, and a
    /// timestamp that could not be had is a timeout. Data or a field that is
    /// missing is a runtime failure. A body that is not the expected JSON,
    /// or a field that does not hold the number it should, is a value
    /// failure.
    pub open spec fn kind_of(self) -> ErrorKind {
        match self {
            EngineError::CantGoBackAnyFurther => ErrorKind::CantGoBackAnyFurther,
            EngineError::InvalidAnswer => ErrorKind::InvalidAnswer,
            EngineError::InvalidLanguage => ErrorKind::InvalidLanguage,
            EngineError::ConnectionError => ErrorKind::ConnectionError,
            EngineError::NoMoreQuestions => ErrorKind::NoMoreQuestions,
            EngineError::TimeoutError => ErrorKind::TimeoutError,
            EngineError::TechnicalError => ErrorKind::TechnicalError,
            EngineError::ServersDown => ErrorKind::ServersDown,
            EngineError::JsonParseError(_) => ErrorKind::ValueError,
            EngineError::NoDataFound => ErrorKind::RuntimeError,
            EngineError::UpdateInfoError(UpdateFault::MissingData, _) => ErrorKind::RuntimeError,
            EngineError::UpdateInfoError(UpdateFault::ParseFloatError, _) => ErrorKind::ValueError,
            EngineError::UpdateInfoError(UpdateFault::ParseIntError, _) => ErrorKind::ValueError,
            EngineError::TimeError(_) => ErrorKind::TimeoutError,
            EngineError::RequestError(_) => ErrorKind::ConnectionError,
        }
    }

    /// The message of an engine failure: a fixed sentence for each named
    /// kind and for missing data, the engine's own words for the rest.
    pub open spec fn message_of(self) -> Seq<char> {
        match self {
            EngineError::CantGoBackAnyFurther =>
                "Cannot go back any more questions, we are already on the 0th question"@,
            EngineError::InvalidAnswer => "Invalid answer string"@,
            EngineError::InvalidLanguage => "Invalid language string"@,
            EngineError::ConnectionError => "Failed to connect to akinator servers"@,
            EngineError::NoMoreQuestions => "The akinator has no more questions to ask"@,
            EngineError::TimeoutError => "The akinator session timed out"@,
            EngineError::TechnicalError =>
                "An unknown technical error occured within the akinator servers"@,
            EngineError::ServersDown => "The requested akinator servers are down"@,
            EngineError::NoDataFound =>
                "Failed to find the required information needed to start the game"@,
            EngineError::JsonParseError(text) => text@,
            EngineError::UpdateInfoError(_, text) => text@,
            EngineError::TimeError(text) => text@,
            EngineError::RequestError(text) => text@,
        }
    }

    /// The class this failure is reported under.
    pub fn kind(&self) -> (kind: ErrorKind)
        ensures
            kind == self.kind_of(),
    {
        match self {
            EngineError::CantGoBackAnyFurther => ErrorKind::CantGoBackAnyFurther,
            EngineError::InvalidAnswer => ErrorKind::InvalidAnswer,
            EngineError::InvalidLanguage => ErrorKind::InvalidLanguage,
            EngineError::ConnectionError | EngineError::RequestError(_) => {
                ErrorKind::ConnectionError
            },
            EngineError::NoMoreQuestions => ErrorKind::NoMoreQuestions,
            EngineError::TimeoutError | EngineError::TimeError(_) => ErrorKind::TimeoutError,
            EngineError::TechnicalError => ErrorKind::TechnicalError,
            EngineError::ServersDown => ErrorKind::ServersDown,
            EngineError::JsonParseError(_) => ErrorKind::ValueError,
            EngineError::NoDataFound => ErrorKind::RuntimeError,
            EngineError::UpdateInfoError(fault, _) => match fault {
                UpdateFault::MissingData => ErrorKind::RuntimeError,
                UpdateFault::ParseFloatError | UpdateFault::ParseIntError => ErrorKind::ValueError,
            },
        }
    }

    /// The message this failure is reported with.
    pub fn message(&self) -> (text: String)
        ensures
            text@ == self.message_of(),
    {
        match self {
            EngineError::CantGoBackAnyFurther => String::from_str(
                "Cannot go back any more questions, we are already on the 0th question",
            ),
            EngineError::InvalidAnswer => String::from_str("Invalid answer string"),
            EngineError::InvalidLanguage => String::from_str("Invalid language string"),
            EngineError::ConnectionError => String::from_str(
                "Failed to connect to akinator servers",
            ),
            EngineError::NoMoreQuestions => String::from_str(
                "The akinator has no more questions to ask",
            ),
            EngineError::TimeoutError => String::from_str("The akinator session timed out"),
            EngineError::TechnicalError => String::from_str(
                "An unknown technical error occured within the akinator servers",
            ),
            EngineError::ServersDown => String::from_str(
                "The requested akinator servers are down",
            ),
            EngineError::NoDataFound => String::from_str(
                "Failed to find the required information needed to start the game",
            ),
            EngineError::JsonParseError(text) => text.clone(),
            EngineError::UpdateInfoError(_, text) => text.clone(),
            EngineError::TimeError(text) => text.clone(),
            EngineError::RequestError(text) => text.clone(),
        }
    }
}

impl Clone for EngineError {
    /// A copy that is the same failure, with the same text.
    fn clone(&self) -> (copy: EngineError)
        ensures
            copy == *self,
    {
        match self {
            EngineError::TimeError(text) => EngineError::TimeError(text.clone()),
            EngineError::RequestError(text) => EngineError::RequestError(text.clone()),
            EngineError::JsonParseError(text) => EngineError::JsonParseError(text.clone()),
            EngineError::UpdateInfoError(fault, text) => {
                EngineError::UpdateInfoError(*fault, text.clone())
            },
            EngineError::NoDataFound => EngineError::NoDataFound,
            EngineError::ServersDown => EngineError::ServersDown,
            EngineError::TechnicalError => EngineError::TechnicalError,
            EngineError::TimeoutError => EngineError::TimeoutError,
            EngineError::NoMoreQuestions => EngineError::NoMoreQuestions,
            EngineError::ConnectionError => EngineError::ConnectionError,
            EngineError::CantGoBackAnyFurther => EngineError::CantGoBackAnyFurther,
            EngineError::InvalidAnswer => EngineError::InvalidAnswer,
            EngineError::InvalidLanguage => EngineError::InvalidLanguage,
        }
    }
}

impl Clone for Error {
    /// A copy that is the same failure.
    fn clone(&self) -> (copy: Error)
        ensures
            copy == *self,
    {
        match self {
            Error::AkiError(inner) => Error::AkiError(inner.clone()),
            Error::PoisonError => Error::PoisonError,
            Error::InvalidConfidence => Error::InvalidConfidence,
        }
    }
}

impl Error {
    /// The class of a failure. A poisoned lock is a runtime failure, a
    /// confidence that is no finite number a value failure.
    pub open spec fn kind_of(self) -> ErrorKind {
        match self {
            Error::AkiError(inner) => inner.kind_of(),
            Error::PoisonError => ErrorKind::RuntimeError,
            Error::InvalidConfidence => ErrorKind::ValueError,
        }
    }

    /// The message of a failure.
    pub open spec fn message_of(self) -> Seq<char> {
        match self {
            Error::AkiError(inner) => inner.message_of(),
            Error::PoisonError => "Failed to read attribute values"@,
            Error::InvalidConfidence => "invalid float literal"@,
        }
    }

    /// The class this failure is reported under. No failure changes its
    /// meaning on the way: each named engine failure keeps its own kind.
    pub fn kind(&self) -> (kind: ErrorKind)
        ensures
            kind == self.kind_of(),
    {
        match self {
            Error::AkiError(inner) => inner.kind(),
            Error::PoisonError => ErrorKind::RuntimeError,
            Error::InvalidConfidence => ErrorKind::ValueError,
        }
    }

    /// The message this failure is reported with.
    pub fn message(&self) -> (text: String)
        ensures
            text@ == self.message_of(),
    {
        match self {
            Error::AkiError(inner) => inner.message(),
            Error::PoisonError => String::from_str("Failed to read attribute values"),
            Error::InvalidConfidence => String::from_str("invalid float literal"),
        }
    }
}

} // verus!
