//! The error type of the library, how error responses of the control plane are classified,
//! and the messages that errors display.

use crate::openapi::apis::{Error as OpenApiError, ResponseContent};
use crate::utils::status::{display_status, status_text};
use crate::utils::text::{concat, contains, contains_seq};
use vstd::prelude::*;

verus! {

/// The status and body of an error response of the control plane.
#[derive(Clone, Debug, PartialEq)]
pub struct WrappedResponseContent {
    /// status code
    pub status: u16,
    /// content
    pub content: String,
}

/// PineconeError is the error type for all Pinecone SDK errors.
#[derive(Clone, Debug, PartialEq)]
#[allow(inconsistent_fields)]
pub enum PineconeError {
    /// UnknownResponseError: Unknown response error.
    UnknownResponseError {
        /// status code
        status: u16,
        /// message
        message: String,
    },
    /// ActionForbiddenError: Action is forbidden.
    ActionForbiddenError {
        /// Source error
        source: WrappedResponseContent,
    },
    /// APIKeyMissingError: API key is not provided as an argument nor in the environment variable `PINECONE_API_KEY`.
    APIKeyMissingError {
        /// Error message.
        message: String,
    },
    /// InvalidHeadersError: Provided headers are not valid. Expects JSON.
    InvalidHeadersError {
        /// Error message.
        message: String,
    },
    /// TimeoutError: Request timed out.
    TimeoutError {
        /// Error message.
        message: String,
    },
    /// ConnectionError: Failed to establish a connection.
    ConnectionError {
        /// Message of the underlying error.
        source: String,
    },
    /// ReqwestError: Error caused by the HTTP client.
    ReqwestError {
        /// Message of the underlying error.
        source: String,
    },
    /// SerdeError: Error caused by (de)serialization.
    SerdeError {
        /// Message of the underlying error.
        source: String,
    },
    /// IoError: Error caused by IO
    IoError {
        /// Error message.
        message: String,
    },
    /// BadRequestError: Bad request. The request body included invalid request parameters
    BadRequestError {
        /// Source error
        source: WrappedResponseContent,
    },
    /// UnauthorizedError: Unauthorized. Possibly caused by invalid API key
    UnauthorizedError {
        /// Source error
        source: WrappedResponseContent,
    },
    /// PodQuotaExceededError: Pod quota exceeded
    PodQuotaExceededError {
        /// Source error
        source: WrappedResponseContent,
    },
    /// CollectionsQuotaExceededError: Collections quota exceeded
    CollectionsQuotaExceededError {
        /// Source error
        source: WrappedResponseContent,
    },
    /// InvalidCloudError: Provided cloud is not valid.
    InvalidCloudError {
        /// Source error
        source: WrappedResponseContent,
    },
    /// InvalidRegionError: Provided region is not valid.
    InvalidRegionError {
        /// Source error
        source: WrappedResponseContent,
    },
    /// InvalidConfigurationError: Provided configuration is not valid.
    InvalidConfigurationError {
        /// Error message.
        message: String,
    },
    /// CollectionNotFoundError: Collection of given name does not exist
    CollectionNotFoundError {
        /// Source error
        source: WrappedResponseContent,
    },
    /// IndexNotFoundError: Index of given name does not exist
    IndexNotFoundError {
        /// Source error
        source: WrappedResponseContent,
    },
    /// ResourceAlreadyExistsError: Resource of given name already exists
    ResourceAlreadyExistsError {
        /// Source error
        source: WrappedResponseContent,
    },
    /// Unprocessable entity error: The request body could not be deserialized
    UnprocessableEntityError {
        /// Source error
        source: WrappedResponseContent,
    },
    /// PendingCollectionError: There is a pending collection created from this index
    PendingCollectionError {
        /// Source error
        source: WrappedResponseContent,
    },
    /// InternalServerError: Internal server error
    InternalServerError {
        /// Source error
        source: WrappedResponseContent,
    },
    /// DataPlaneError: Failed to perform a data plane operation.
    DataPlaneError {
        /// The gRPC status, as displayed.
        status: String,
    },
    /// InferenceError: Failed to perform an inference operation.
    InferenceError {
        /// The gRPC status, as displayed.
        status: String,
    },
}

/// What an error response with status 404 means, by its body.
pub open spec fn not_found_error(source: WrappedResponseContent, message: Seq<char>) -> PineconeError {
    if contains_seq(message, "Index"@) {
        PineconeError::IndexNotFoundError { source }
    } else if contains_seq(message, "Collection"@) {
        PineconeError::CollectionNotFoundError { source }
    } else if contains_seq(message, "region"@) {
        PineconeError::InvalidRegionError { source }
    } else if contains_seq(message, "cloud"@) {
        PineconeError::InvalidCloudError { source }
    } else {
        PineconeError::InternalServerError { source }
    }
}

/// What an error response with status 403 means, by its body.
pub open spec fn forbidden_error(source: WrappedResponseContent, message: Seq<char>) -> PineconeError {
    if contains_seq(message, "Deletion protection"@) {
        PineconeError::ActionForbiddenError { source }
    } else if contains_seq(message, "index"@) {
        PineconeError::PodQuotaExceededError { source }
    } else if contains_seq(message, "Collection"@) {
        PineconeError::CollectionsQuotaExceededError { source }
    } else {
        PineconeError::InternalServerError { source }
    }
}

/// What an error response means, by its status and, for 403 and 404, its body.
pub open spec fn response_error(source: WrappedResponseContent) -> PineconeError {
    let status = source.status;
    let message = source.content@;
    if status == 400 {
        PineconeError::BadRequestError { source }
    } else if status == 401 {
        PineconeError::UnauthorizedError { source }
    } else if status == 403 {
        forbidden_error(source, message)
    } else if status == 404 {
        not_found_error(source, message)
    } else if status == 409 {
        PineconeError::ResourceAlreadyExistsError { source }
    } else if status == 412 {
        PineconeError::PendingCollectionError { source }
    } else if status == 422 {
        PineconeError::UnprocessableEntityError { source }
    } else if status == 500 {
        PineconeError::InternalServerError { source }
    } else {
        PineconeError::UnknownResponseError { status, message: source.content }
    }
}

/// The error that a failed call of the control plane API becomes.
pub open spec fn api_error(error: OpenApiError) -> PineconeError {
    match error {
        OpenApiError::Reqwest(m) => PineconeError::ReqwestError { source: m },
        OpenApiError::Serde(m) => PineconeError::SerdeError { source: m },
        OpenApiError::Io(m) => PineconeError::IoError { message: m },
        OpenApiError::ResponseError(rc) => response_error(
            WrappedResponseContent { status: rc.status, content: rc.content },
        ),
    }
}

fn parse_not_found_error(source: WrappedResponseContent, message: String) -> (e: PineconeError)
    ensures
        e == not_found_error(source, message@),
{
    if contains(message.as_str(), "Index") {
        PineconeError::IndexNotFoundError { source }
    } else if contains(message.as_str(), "Collection") {
        PineconeError::CollectionNotFoundError { source }
    } else if contains(message.as_str(), "region") {
        PineconeError::InvalidRegionError { source }
    } else if contains(message.as_str(), "cloud") {
        PineconeError::InvalidCloudError { source }
    } else {
        PineconeError::InternalServerError { source }
    }
}

fn parse_forbidden_error(source: WrappedResponseContent, message: String) -> (e: PineconeError)
    ensures
        e == forbidden_error(source, message@),
{
    if contains(message.as_str(), "Deletion protection") {
        PineconeError::ActionForbiddenError { source }
    } else if contains(message.as_str(), "index") {
        PineconeError::PodQuotaExceededError { source }
    } else if contains(message.as_str(), "Collection") {
        PineconeError::CollectionsQuotaExceededError { source }
    } else {
        PineconeError::InternalServerError { source }
    }
}

/// How an error response of the control plane is classified: by its status alone for 400,
/// 401, 409, 412, 422 and 500; for 403 and 404 by the first of a few words its body contains;
/// every other status is an unknown response error with the status and the body as message.
/// A classified error carries the response unchanged.
pub proof fn response_classification(source: WrappedResponseContent)
    ensures
        source.status == 400 ==> response_error(source) == (PineconeError::BadRequestError { source }),
        source.status == 401 ==> response_error(source) == (PineconeError::UnauthorizedError { source }),
        source.status == 409 ==> response_error(source) == (PineconeError::ResourceAlreadyExistsError { source }),
        source.status == 412 ==> response_error(source) == (PineconeError::PendingCollectionError { source }),
        source.status == 422 ==> response_error(source) == (PineconeError::UnprocessableEntityError { source }),
        source.status == 500 ==> response_error(source) == (PineconeError::InternalServerError { source }),
        source.status == 403 && contains_seq(source.content@, "Deletion protection"@) ==> response_error(source)
            == (PineconeError::ActionForbiddenError { source }),
        source.status == 403 && !contains_seq(source.content@, "Deletion protection"@) && contains_seq(
            source.content@,
            "index"@,
        ) ==> response_error(source) == (PineconeError::PodQuotaExceededError { source }),
        source.status == 403 && !contains_seq(source.content@, "Deletion protection"@) && !contains_seq(
            source.content@,
            "index"@,
        ) && contains_seq(source.content@, "Collection"@) ==> response_error(source)
            == (PineconeError::CollectionsQuotaExceededError { source }),
        source.status == 403 && !contains_seq(source.content@, "Deletion protection"@) && !contains_seq(
            source.content@,
            "index"@,
        ) && !contains_seq(source.content@, "Collection"@) ==> response_error(source)
            == (PineconeError::InternalServerError { source }),
        source.status == 404 && contains_seq(source.content@, "Index"@) ==> response_error(source)
            == (PineconeError::IndexNotFoundError { source }),
        source.status == 404 && !contains_seq(source.content@, "Index"@) && contains_seq(
            source.content@,
            "Collection"@,
        ) ==> response_error(source) == (PineconeError::CollectionNotFoundError { source }),
        source.status == 404 && !contains_seq(source.content@, "Index"@) && !contains_seq(
            source.content@,
            "Collection"@,
        ) && contains_seq(source.content@, "region"@) ==> response_error(source)
            == (PineconeError::InvalidRegionError { source }),
        source.status == 404 && !contains_seq(source.content@, "Index"@) && !contains_seq(
            source.content@,
            "Collection"@,
        ) && !contains_seq(source.content@, "region"@) && contains_seq(source.content@, "cloud"@)
            ==> response_error(source) == (PineconeError::InvalidCloudError { source }),
        source.status == 404 && !contains_seq(source.content@, "Index"@) && !contains_seq(
            source.content@,
            "Collection"@,
        ) && !contains_seq(source.content@, "region"@) && !contains_seq(source.content@, "cloud"@)
            ==> response_error(source) == (PineconeError::InternalServerError { source }),
        source.status != 400 && source.status != 401 && source.status != 403 && source.status != 404
            && source.status != 409 && source.status != 412 && source.status != 422 && source.status != 500
            ==> response_error(source) == (PineconeError::UnknownResponseError {
            status: source.status,
            message: source.content,
        }),
{
}

/// Classifies an error response of the control plane by its status code and body.
pub fn handle_response_error(source: WrappedResponseContent) -> (e: PineconeError)
    ensures
        e == response_error(source),
{
    let status = source.status;
    let message = source.content.clone();
    if status == 400 {
        PineconeError::BadRequestError { source }
    } else if status == 401 {
        PineconeError::UnauthorizedError { source }
    } else if status == 403 {
        parse_forbidden_error(source, message)
    } else if status == 404 {
        parse_not_found_error(source, message)
    } else if status == 409 {
        PineconeError::ResourceAlreadyExistsError { source }
    } else if status == 412 {
        PineconeError::PendingCollectionError { source }
    } else if status == 422 {
        PineconeError::UnprocessableEntityError { source }
    } else if status == 500 {
        PineconeError::InternalServerError { source }
    } else {
        PineconeError::UnknownResponseError { status, message }
    }
}

impl WrappedResponseContent {
    /// The content of a response that reported an error.
    pub fn from_response(rc: ResponseContent) -> (w: WrappedResponseContent)
        ensures
            w.status == rc.status,
            w.content == rc.content,
    {
        WrappedResponseContent { status: rc.status, content: rc.content }
    }

    /// What the response shows in messages: `status: <status> content: <content>`.
    pub open spec fn text(self) -> Seq<char> {
        "status: "@ + status_text(self.status) + " content: "@ + self.content@
    }

    /// The message of the response: `status: <status> content: <content>`.
    pub fn message(&self) -> (s: String)
        ensures
            s@ == self.text(),
    {
        let st = display_status(self.status);
        let s = concat("status: ", st.as_str());
        let s = concat(s.as_str(), " content: ");
        concat(s.as_str(), self.content.as_str())
    }
}

impl PineconeError {
    /// Converts a failed call of the control plane API into a PineconeError.
    pub fn from_api_error(error: OpenApiError) -> (e: PineconeError)
        ensures
            e == api_error(error),
    {
        match error {
            OpenApiError::Reqwest(m) => PineconeError::ReqwestError { source: m },
            OpenApiError::Serde(m) => PineconeError::SerdeError { source: m },
            OpenApiError::Io(m) => PineconeError::IoError { message: m },
            OpenApiError::ResponseError(rc) => handle_response_error(
                WrappedResponseContent::from_response(rc),
            ),
        }
    }

    /// The message that the error displays.
    pub open spec fn text(self) -> Seq<char> {
        match self {
            PineconeError::UnknownResponseError { status, message } =>
                "Unknown response error: status: "@ + status_text(status) + ", message: "@ + message@,
            PineconeError::ActionForbiddenError { source } => "Action forbidden error: "@ + source.text(),
            PineconeError::APIKeyMissingError { message } => "API key missing error: "@ + message@,
            PineconeError::InvalidHeadersError { message } => "Invalid headers error: "@ + message@,
            PineconeError::TimeoutError { message } => "Timeout error: "@ + message@,
            PineconeError::ConnectionError { source } => "Connection error: "@ + source@,
            PineconeError::ReqwestError { source } => "Reqwest error: "@ + source@,
            PineconeError::SerdeError { source } => "Serde error: "@ + source@,
            PineconeError::IoError { message } => "IO error: "@ + message@,
            PineconeError::BadRequestError { source } => "Bad request error: "@ + source.text(),
            PineconeError::UnauthorizedError { source } => "Unauthorized error: "@ + source.text(),
            PineconeError::PodQuotaExceededError { source } => "Pod quota exceeded error: "@ + source.text(),
            PineconeError::CollectionsQuotaExceededError { source } =>
                "Collections quota exceeded error: "@ + source.text(),
            PineconeError::InvalidCloudError { source } => "Invalid cloud error: "@ + source.text(),
            PineconeError::InvalidRegionError { source } => "Invalid region error: "@ + source.text(),
            PineconeError::InvalidConfigurationError { message } =>
                "Invalid configuration error: "@ + message@,
            PineconeError::CollectionNotFoundError { source } =>
                "Collection not found error: "@ + source.text(),
            PineconeError::IndexNotFoundError { source } => "Index not found error: "@ + source.text(),
            PineconeError::ResourceAlreadyExistsError { source } =>
                "Resource already exists error: "@ + source.text(),
            PineconeError::UnprocessableEntityError { source } =>
                "Unprocessable entity error: "@ + source.text(),
            PineconeError::PendingCollectionError { source } => "Pending collection error: "@ + source.text(),
            PineconeError::InternalServerError { source } => "Internal server error: "@ + source.text(),
            PineconeError::DataPlaneError { status } => "Data plane error: "@ + status@,
            PineconeError::InferenceError { status } => "Inference error: "@ + status@,
        }
    }

    /// The message that the error displays.
    pub fn message(&self) -> (s: String)
        ensures
            s@ == self.text(),
    {
        match self {
            PineconeError::UnknownResponseError { status, message } => {
                let st = display_status(*status);
                let s = concat("Unknown response error: status: ", st.as_str());
                let s = concat(s.as_str(), ", message: ");
                concat(s.as_str(), message.as_str())
            },
            PineconeError::ActionForbiddenError { source } => {
                let m = source.message();
                concat("Action forbidden error: ", m.as_str())
            },
            PineconeError::APIKeyMissingError { message } => concat("API key missing error: ", message.as_str()),
            PineconeError::InvalidHeadersError { message } => concat("Invalid headers error: ", message.as_str()),
            PineconeError::TimeoutError { message } => concat("Timeout error: ", message.as_str()),
            PineconeError::ConnectionError { source } => concat("Connection error: ", source.as_str()),
            PineconeError::ReqwestError { source } => concat("Reqwest error: ", source.as_str()),
            PineconeError::SerdeError { source } => concat("Serde error: ", source.as_str()),
            PineconeError::IoError { message } => concat("IO error: ", message.as_str()),
            PineconeError::BadRequestError { source } => {
                let m = source.message();
                concat("Bad request error: ", m.as_str())
            },
            PineconeError::UnauthorizedError { source } => {
                let m = source.message();
                concat("Unauthorized error: ", m.as_str())
            },
            PineconeError::PodQuotaExceededError { source } => {
                let m = source.message();
                concat("Pod quota exceeded error: ", m.as_str())
            },
            PineconeError::CollectionsQuotaExceededError { source } => {
                let m = source.message();
                concat("Collections quota exceeded error: ", m.as_str())
            },
            PineconeError::InvalidCloudError { source } => {
                let m = source.message();
                concat("Invalid cloud error: ", m.as_str())
            },
            PineconeError::InvalidRegionError { source } => {
                let m = source.message();
                concat("Invalid region error: ", m.as_str())
            },
            PineconeError::InvalidConfigurationError { message } =>
                concat("Invalid configuration error: ", message.as_str()),
            PineconeError::CollectionNotFoundError { source } => {
                let m = source.message();
                concat("Collection not found error: ", m.as_str())
            },
            PineconeError::IndexNotFoundError { source } => {
                let m = source.message();
                concat("Index not found error: ", m.as_str())
            },
            PineconeError::ResourceAlreadyExistsError { source } => {
                let m = source.message();
                concat("Resource already exists error: ", m.as_str())
            },
            PineconeError::UnprocessableEntityError { source } => {
                let m = source.message();
                concat("Unprocessable entity error: ", m.as_str())
            },
            PineconeError::PendingCollectionError { source } => {
                let m = source.message();
                concat("Pending collection error: ", m.as_str())
            },
            PineconeError::InternalServerError { source } => {
                let m = source.message();
                concat("Internal server error: ", m.as_str())
            },
            PineconeError::DataPlaneError { status } => concat("Data plane error: ", status.as_str()),
            PineconeError::InferenceError { status } => concat("Inference error: ", status.as_str()),
        }
    }

    /// The error this error was caused by, if any: the error response of the control plane,
    /// or the message of the underlying transport or (de)serialization error.
    pub open spec fn source_spec(&self) -> Option<ErrorSource<'_>> {
        match self {
            PineconeError::ActionForbiddenError { source } => Some(ErrorSource::Response(source)),
            PineconeError::ConnectionError { source } => Some(ErrorSource::Cause(source)),
            PineconeError::ReqwestError { source } => Some(ErrorSource::Cause(source)),
            PineconeError::SerdeError { source } => Some(ErrorSource::Cause(source)),
            PineconeError::BadRequestError { source } => Some(ErrorSource::Response(source)),
            PineconeError::UnauthorizedError { source } => Some(ErrorSource::Response(source)),
            PineconeError::PodQuotaExceededError { source } => Some(ErrorSource::Response(source)),
            PineconeError::CollectionsQuotaExceededError { source } => Some(ErrorSource::Response(source)),
            PineconeError::InvalidCloudError { source } => Some(ErrorSource::Response(source)),
            PineconeError::InvalidRegionError { source } => Some(ErrorSource::Response(source)),
            PineconeError::CollectionNotFoundError { source } => Some(ErrorSource::Response(source)),
            PineconeError::IndexNotFoundError { source } => Some(ErrorSource::Response(source)),
            PineconeError::ResourceAlreadyExistsError { source } => Some(ErrorSource::Response(source)),
            PineconeError::UnprocessableEntityError { source } => Some(ErrorSource::Response(source)),
            PineconeError::PendingCollectionError { source } => Some(ErrorSource::Response(source)),
            PineconeError::InternalServerError { source } => Some(ErrorSource::Response(source)),
            _ => None,
        }
    }

    /// The error this error was caused by, if any: the error response of the control plane,
    /// or the message of the underlying transport or (de)serialization error.
    pub fn source(&self) -> (r: Option<ErrorSource<'_>>)
        ensures
            r == self.source_spec(),
    {
        match self {
            PineconeError::ActionForbiddenError { source } => Some(ErrorSource::Response(source)),
            PineconeError::ConnectionError { source } => Some(ErrorSource::Cause(source)),
            PineconeError::ReqwestError { source } => Some(ErrorSource::Cause(source)),
            PineconeError::SerdeError { source } => Some(ErrorSource::Cause(source)),
            PineconeError::BadRequestError { source } => Some(ErrorSource::Response(source)),
            PineconeError::UnauthorizedError { source } => Some(ErrorSource::Response(source)),
            PineconeError::PodQuotaExceededError { source } => Some(ErrorSource::Response(source)),
            PineconeError::CollectionsQuotaExceededError { source } => Some(ErrorSource::Response(source)),
            PineconeError::InvalidCloudError { source } => Some(ErrorSource::Response(source)),
            PineconeError::InvalidRegionError { source } => Some(ErrorSource::Response(source)),
            PineconeError::CollectionNotFoundError { source } => Some(ErrorSource::Response(source)),
            PineconeError::IndexNotFoundError { source } => Some(ErrorSource::Response(source)),
            PineconeError::ResourceAlreadyExistsError { source } => Some(ErrorSource::Response(source)),
            PineconeError::UnprocessableEntityError { source } => Some(ErrorSource::Response(source)),
            PineconeError::PendingCollectionError { source } => Some(ErrorSource::Response(source)),
            PineconeError::InternalServerError { source } => Some(ErrorSource::Response(source)),
            _ => None,
        }
    }
}

/// The cause of a PineconeError.
#[derive(Debug)]
pub enum ErrorSource<'a> {
    /// The error response of the control plane.
    Response(&'a WrappedResponseContent),
    /// The message of an underlying transport or (de)serialization error.
    Cause(&'a String),
}

} // verus!
