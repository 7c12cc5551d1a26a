//! The failure taxonomy, its exit codes, and the remediation hints.
use vstd::prelude::*;
use crate::text::{contains, has_substring};

verus! {

/// Every way an operation against the service can fail.
#[derive(Debug)]
pub enum TaigaAPIError {
    /// The credentials were refused.
    Authentication(String),
    /// No story carries the given public reference.
    StoryNotFound(String),
    /// No project of the user has the given name.
    ProjectNotFound(String),
    /// Any other unexpected response from the service.
    ApiError(String),
    /// A transport failure: DNS, TLS, refused or timed-out connection.
    InternalError(String),
    /// A response body did not have the expected shape.
    DeserializationError(String),
}

/// The process exit code of each kind of failure.
pub open spec fn exit_code_of(e: TaigaAPIError) -> i32 {
    match e {
        TaigaAPIError::Authentication(_) => 1,
        TaigaAPIError::InternalError(_) => 1,
        TaigaAPIError::StoryNotFound(_) => 2,
        TaigaAPIError::ProjectNotFound(_) => 3,
        TaigaAPIError::ApiError(_) => 4,
        TaigaAPIError::DeserializationError(_) => 5,
    }
}

/// The one-line description of a failure: a fixed prefix per kind, then its detail.
pub open spec fn description_of(e: TaigaAPIError) -> Seq<char> {
    match e {
        TaigaAPIError::Authentication(m) => "Authentication failed: "@ + m@,
        TaigaAPIError::StoryNotFound(m) => "User story not found: "@ + m@,
        TaigaAPIError::ProjectNotFound(m) => "Project not found: "@ + m@,
        TaigaAPIError::ApiError(m) => "API error: "@ + m@,
        TaigaAPIError::InternalError(m) => "Network error: "@ + m@,
        TaigaAPIError::DeserializationError(m) => "Failed to parse response: "@ + m@,
    }
}

/// The remediation advice shown after a failure.
#[derive(Debug, Clone, Copy, PartialEq, Eq, Structural)]
pub enum Hint {
    /// Set the credentials and verify them in the web interface.
    CheckCredentials,
    /// List the stories to find the right reference.
    ListStories,
    /// Check the project name and the membership.
    CheckProjectName,
    /// The server is having trouble; retry later.
    ServerIssue,
    /// The call was not authorised; check username and password.
    Unauthorized,
    /// Permission denied on the resource.
    PermissionDenied,
    /// The resource does not exist.
    ResourceNotFound,
    /// Some other API failure: check the network and retry.
    RetryRequest,
    /// The connection failed or timed out.
    CheckConnection,
    /// The host name could not be resolved.
    CheckHostName,
    /// A certificate problem.
    CheckCertificates,
    /// Some other transport failure.
    NetworkFailure,
    /// The response format was not understood.
    ResponseFormat,
}

/// What the text of an API failure suggests, by the status codes it mentions.
pub open spec fn api_hint(m: Seq<char>) -> Hint {
    if contains(m, "500"@) || contains(m, "502"@) || contains(m, "503"@) {
        Hint::ServerIssue
    } else if contains(m, "401"@) {
        Hint::Unauthorized
    } else if contains(m, "403"@) {
        Hint::PermissionDenied
    } else if contains(m, "404"@) {
        Hint::ResourceNotFound
    } else {
        Hint::RetryRequest
    }
}

/// The lower-case form of a text, as `str::to_lowercase` gives it.
pub uninterp spec fn lower_of(s: Seq<char>) -> Seq<char>;

/// What the text of a transport failure suggests, matched without regard to case.
pub open spec fn network_hint(m: Seq<char>) -> Hint {
    let l = lower_of(m);
    if contains(l, "connection"@) || contains(l, "timeout"@) {
        Hint::CheckConnection
    } else if contains(l, "dns"@) || contains(l, "resolve"@) {
        Hint::CheckHostName
    } else if contains(l, "ssl"@) || contains(l, "tls"@) {
        Hint::CheckCertificates
    } else {
        Hint::NetworkFailure
    }
}

/// The advice for a failure, keyed on its kind and, for API and transport
/// failures, on the words of its detail.
pub open spec fn hint_of(e: TaigaAPIError) -> Hint {
    match e {
        TaigaAPIError::Authentication(_) => Hint::CheckCredentials,
        TaigaAPIError::StoryNotFound(_) => Hint::ListStories,
        TaigaAPIError::ProjectNotFound(_) => Hint::CheckProjectName,
        TaigaAPIError::ApiError(m) => api_hint(m@),
        TaigaAPIError::InternalError(m) => network_hint(m@),
        TaigaAPIError::DeserializationError(_) => Hint::ResponseFormat,
    }
}

/// Relies on `str::to_lowercase`: the result depends on the characters alone.
#[verifier::external_body]
fn lowercase(s: &str) -> (r: String)
    ensures
        r@ == lower_of(s@),
{
    s.to_lowercase()
}

/// `prefix` followed by `m`.
fn prefixed(prefix: &str, m: &String) -> (r: String)
    ensures
        r@ == prefix@ + m@,
{
    let mut r = String::from_str(prefix);
    r.append(m.as_str());
    r
}

impl TaigaAPIError {
    /// The process exit code for this failure.
    pub fn exit_code(&self) -> (r: i32)
        ensures
            r == exit_code_of(*self),
    {
        match self {
            TaigaAPIError::Authentication(_) => 1,
            TaigaAPIError::InternalError(_) => 1,
            TaigaAPIError::StoryNotFound(_) => 2,
            TaigaAPIError::ProjectNotFound(_) => 3,
            TaigaAPIError::ApiError(_) => 4,
            TaigaAPIError::DeserializationError(_) => 5,
        }
    }

    /// The one-line description shown to the user.
    pub fn describe(&self) -> (r: String)
        ensures
            r@ == description_of(*self),
    {
        match self {
            TaigaAPIError::Authentication(m) => prefixed("Authentication failed: ", m),
            TaigaAPIError::StoryNotFound(m) => prefixed("User story not found: ", m),
            TaigaAPIError::ProjectNotFound(m) => prefixed("Project not found: ", m),
            TaigaAPIError::ApiError(m) => prefixed("API error: ", m),
            TaigaAPIError::InternalError(m) => prefixed("Network error: ", m),
            TaigaAPIError::DeserializationError(m) => prefixed("Failed to parse response: ", m),
        }
    }

    /// The remediation advice for this failure.
    pub fn hint(&self) -> (r: Hint)
        ensures
            r == hint_of(*self),
    {
        match self {
            TaigaAPIError::Authentication(_) => Hint::CheckCredentials,
            TaigaAPIError::StoryNotFound(_) => Hint::ListStories,
            TaigaAPIError::ProjectNotFound(_) => Hint::CheckProjectName,
            TaigaAPIError::ApiError(m) => {
                let m = m.as_str();
                if has_substring(m, "500") || has_substring(m, "502") || has_substring(m, "503") {
                    Hint::ServerIssue
                } else if has_substring(m, "401") {
                    Hint::Unauthorized
                } else if has_substring(m, "403") {
                    Hint::PermissionDenied
                } else if has_substring(m, "404") {
                    Hint::ResourceNotFound
                } else {
                    Hint::RetryRequest
                }
            },
            TaigaAPIError::InternalError(m) => {
                let lower = lowercase(m.as_str());
                let l = lower.as_str();
                if has_substring(l, "connection") || has_substring(l, "timeout") {
                    Hint::CheckConnection
                } else if has_substring(l, "dns") || has_substring(l, "resolve") {
                    Hint::CheckHostName
                } else if has_substring(l, "ssl") || has_substring(l, "tls") {
                    Hint::CheckCertificates
                } else {
                    Hint::NetworkFailure
                }
            },
            TaigaAPIError::DeserializationError(_) => Hint::ResponseFormat,
        }
    }
}

} // verus!
