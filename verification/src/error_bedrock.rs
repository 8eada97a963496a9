//! The failures of an inference call, and the text each one is shown as.

use crate::sdk::{
    build_error_text, build_failure_text, call_failure_text, sdk_error_text, service_error_detail,
    service_failure_detail,
};
use aws_sdk_bedrockruntime::error::{BuildError, SdkError};
use aws_sdk_bedrockruntime::operation::converse::ConverseError;
use vstd::prelude::*;
use vstd::std_specs::convert::FromSpecImpl;
use vstd::string::*;

verus! {

/// What opens the message of a failure that the service reported.
pub const SERVICE_PREFIX: &'static str = "Service error: ";

/// What opens the message of a failure on the way to the service.
pub const SDK_PREFIX: &'static str = "SDK error: ";

/// What opens the message of a request that could not be built.
pub const BUILD_PREFIX: &'static str = "Build error: ";

/// Why an inference call produced no completion.
#[derive(Debug)]
pub enum BedrockError {
    /// The backend understood the request and rejected or failed it.
    ServiceError(String),
    /// The backend could not be reached or its reply could not be read.
    SdkError(String),
    /// The backend replied, but the reply held no text.
    NoResponse,
    /// The outbound request could not be put together.
    BuildError(String),
}

/// A `BedrockError` with its message seen as a sequence of characters.
pub enum BedrockErrorView {
    ServiceError(Seq<char>),
    SdkError(Seq<char>),
    NoResponse,
    BuildError(Seq<char>),
}

impl BedrockErrorView {
    /// The text this error is shown as: a fixed opening for its kind, then
    /// its message.
    pub open spec fn display(self) -> Seq<char> {
        match self {
            BedrockErrorView::ServiceError(msg) => "Bedrock service error: "@ + msg,
            BedrockErrorView::SdkError(msg) => "Bedrock SDK error: "@ + msg,
            BedrockErrorView::NoResponse => "No response from Bedrock"@,
            BedrockErrorView::BuildError(msg) => "Build error: "@ + msg,
        }
    }
}

impl View for BedrockError {
    type V = BedrockErrorView;

    open spec fn view(&self) -> BedrockErrorView {
        match *self {
            BedrockError::ServiceError(msg) => BedrockErrorView::ServiceError(msg@),
            BedrockError::SdkError(msg) => BedrockErrorView::SdkError(msg@),
            BedrockError::NoResponse => BedrockErrorView::NoResponse,
            BedrockError::BuildError(msg) => BedrockErrorView::BuildError(msg@),
        }
    }
}

/// The error that a failed call stands for: a service error with the
/// service's diagnostic where the service rejected the request, an SDK
/// error with the failure's own text otherwise.
pub open spec fn call_failure(detail: Option<Seq<char>>, text: Seq<char>) -> BedrockErrorView {
    match detail {
        Some(diagnostic) => BedrockErrorView::ServiceError(SERVICE_PREFIX@ + diagnostic),
        None => BedrockErrorView::SdkError(SDK_PREFIX@ + text),
    }
}

impl BedrockError {
    /// The error for a request that the service rejected, from the
    /// service's diagnostic.
    pub fn service_failure(diagnostic: &str) -> (error: BedrockError)
        ensures
            error@ == BedrockErrorView::ServiceError(SERVICE_PREFIX@ + diagnostic@),
    {
        BedrockError::ServiceError(String::from_str(SERVICE_PREFIX).concat(diagnostic))
    }

    /// The error for a call that failed on the way, from the failure's
    /// text.
    pub fn transport_failure(text: &str) -> (error: BedrockError)
        ensures
            error@ == BedrockErrorView::SdkError(SDK_PREFIX@ + text@),
    {
        BedrockError::SdkError(String::from_str(SDK_PREFIX).concat(text))
    }

    /// The error for a request that could not be built, from the builder's
    /// text.
    pub fn build_failure(text: &str) -> (error: BedrockError)
        ensures
            error@ == BedrockErrorView::BuildError(BUILD_PREFIX@ + text@),
    {
        BedrockError::BuildError(String::from_str(BUILD_PREFIX).concat(text))
    }

    /// Renders the error as text: the kind's fixed opening, then its
    /// message.
    pub fn to_string(&self) -> (text: String)
        ensures
            text@ == self@.display(),
    {
        match self {
            BedrockError::ServiceError(msg) => String::from_str("Bedrock service error: ").concat(
                msg.as_str(),
            ),
            BedrockError::SdkError(msg) => String::from_str("Bedrock SDK error: ").concat(
                msg.as_str(),
            ),
            BedrockError::NoResponse => String::from_str("No response from Bedrock"),
            BedrockError::BuildError(msg) => String::from_str("Build error: ").concat(msg.as_str()),
        }
    }
}

impl FromSpecImpl<String> for BedrockError {
    open spec fn obeys_from_spec() -> bool {
        true
    }

    open spec fn from_spec(err: String) -> BedrockError {
        BedrockError::ServiceError(err)
    }
}

impl From<String> for BedrockError {
    /// A bare message counts as a service error and is kept as it stands.
    fn from(err: String) -> (error: BedrockError)
        ensures
            error@ == BedrockErrorView::ServiceError(err@),
    {
        BedrockError::ServiceError(err)
    }
}

impl<'a> FromSpecImpl<&'a str> for BedrockError {
    open spec fn obeys_from_spec() -> bool {
        false
    }

    open spec fn from_spec(err: &'a str) -> BedrockError {
        arbitrary()
    }
}

impl<'a> From<&'a str> for BedrockError {
    /// A bare message counts as a service error and is kept as it stands.
    fn from(err: &'a str) -> (error: BedrockError)
        ensures
            error@ == BedrockErrorView::ServiceError(err@),
    {
        BedrockError::ServiceError(String::from_str(err))
    }
}

impl FromSpecImpl<SdkError<ConverseError>> for BedrockError {
    open spec fn obeys_from_spec() -> bool {
        false
    }

    open spec fn from_spec(err: SdkError<ConverseError>) -> BedrockError {
        arbitrary()
    }
}

impl From<SdkError<ConverseError>> for BedrockError {
    /// A failed call becomes a service error where the service rejected
    /// the request, and an SDK error otherwise.
    fn from(err: SdkError<ConverseError>) -> (error: BedrockError)
        ensures
            error@ == call_failure(service_error_detail(err), sdk_error_text(err)),
    {
        match service_failure_detail(&err) {
            Some(diagnostic) => BedrockError::service_failure(diagnostic.as_str()),
            None => BedrockError::transport_failure(call_failure_text(&err).as_str()),
        }
    }
}

impl FromSpecImpl<BuildError> for BedrockError {
    open spec fn obeys_from_spec() -> bool {
        false
    }

    open spec fn from_spec(err: BuildError) -> BedrockError {
        arbitrary()
    }
}

impl From<BuildError> for BedrockError {
    /// A failure of the SDK's builder becomes a build error.
    fn from(err: BuildError) -> (error: BedrockError)
        ensures
            error@ == BedrockErrorView::BuildError(BUILD_PREFIX@ + build_error_text(err)),
    {
        BedrockError::build_failure(build_failure_text(&err).as_str())
    }
}

} // verus!
