use crate::text::glue3;
use vstd::prelude::*;

verus! {

/// Why an operation on the controller failed.
#[derive(Debug, PartialEq, Eq)]
pub enum ApiError {
    /// The request could not be sent, or no response arrived.
    Transport { context: String, cause: String },
    /// The controller answered with a status outside 200 to 299.
    Status { label: String, status: u16, body: String },
    /// The body of a successful response is not a JSON document.
    Malformed,
    /// No network of the controller has the purpose "wan".
    NoWanNetwork,
    /// The controller holds no setting under the key.
    SettingNotFound { key: String },
    /// The configuration names no host.
    NotConfigured,
    /// The configuration holds no API key.
    ApiKeyNotConfigured,
}

/// The mathematical value of an `ApiError`.
pub enum Failure {
    Transport { context: Seq<char>, cause: Seq<char> },
    Status { label: Seq<char>, status: u16, body: Seq<char> },
    Malformed,
    NoWanNetwork,
    SettingNotFound { key: Seq<char> },
    NotConfigured,
    ApiKeyNotConfigured,
}

impl View for ApiError {
    type V = Failure;

    open spec fn view(&self) -> Failure {
        match self {
            ApiError::Transport { context, cause } => Failure::Transport {
                context: context@,
                cause: cause@,
            },
            ApiError::Status { label, status, body } => Failure::Status {
                label: label@,
                status: *status,
                body: body@,
            },
            ApiError::Malformed => Failure::Malformed,
            ApiError::NoWanNetwork => Failure::NoWanNetwork,
            ApiError::SettingNotFound { key } => Failure::SettingNotFound { key: key@ },
            ApiError::NotConfigured => Failure::NotConfigured,
            ApiError::ApiKeyNotConfigured => Failure::ApiKeyNotConfigured,
        }
    }
}

/// The value of a result: the value of what it holds, on either side.
pub open spec fn result_view<T: View, E: View>(result: Result<T, E>) -> Result<T::V, E::V> {
    match result {
        Ok(value) => Ok(value@),
        Err(error) => Err(error@),
    }
}

/// Whether a number is an HTTP status code: three decimal digits.
pub open spec fn is_status_code(status: u16) -> bool {
    100 <= status <= 999
}

/// What `reqwest::StatusCode` displays for a status code: the number and,
/// after a space, the phrase that the code is known by, or a fixed
/// placeholder where it is known by none.
pub uninterp spec fn status_line(status: u16) -> Seq<char>;

/// How an error message shows a status: as `reqwest::StatusCode` displays it,
/// and not at all where the number is no status code.
pub open spec fn status_shown(status: u16) -> Seq<char> {
    if is_status_code(status) {
        status_line(status)
    } else {
        ""@
    }
}

/// The message for an answer outside the success class: what failed, the
/// status as it is shown, and the body of the answer.
pub open spec fn refusal_text(label: Seq<char>, shown: Seq<char>, body: Seq<char>) -> Seq<char> {
    label + " ("@ + shown + "): "@ + body
}

impl Failure {
    /// The message that describes the failure.
    pub open spec fn message(self) -> Seq<char> {
        match self {
            Failure::Transport { context, cause } => context + ": "@ + cause,
            Failure::Status { label, status, body } => refusal_text(
                label,
                status_shown(status),
                body,
            ),
            Failure::Malformed => "Failed to parse response"@,
            Failure::NoWanNetwork => "No WAN network found"@,
            Failure::SettingNotFound { key } => "Setting '"@ + key + "' not found"@,
            Failure::NotConfigured => "Not configured. Run 'unifi config' first"@,
            Failure::ApiKeyNotConfigured => "API key not configured. Run 'unifi config' first"@,
        }
    }
}

/// Calls `reqwest::StatusCode::from_u16` and, where it accepts the number,
/// `to_string` on the status code. The source of `from_u16` accepts 100 to 999
/// and nothing else; what `to_string` gives depends on the number alone, so it
/// is named `status_line`.
#[verifier::external_body]
fn display_status(status: u16) -> (shown: Option<String>)
    ensures
        shown is Some <==> is_status_code(status),
        shown is Some ==> shown->0@ == status_line(status),
{
    match reqwest::StatusCode::from_u16(status) {
        Ok(code) => Some(code.to_string()),
        Err(_) => None,
    }
}

/// The message for an answer outside the success class, given how its
/// status is shown.
pub fn refusal_message(label: &str, shown: &str, body: &str) -> (text: String)
    ensures
        text@ == refusal_text(label@, shown@, body@),
{
    let mut text = glue3(label, " (", shown);
    text.append("): ");
    text.append(body);
    text
}

impl ApiError {
    /// The message that describes the failure.
    pub fn message(&self) -> (text: String)
        ensures
            text@ == self@.message(),
    {
        match self {
            ApiError::Transport { context, cause } => glue3(
                context.as_str(),
                ": ",
                cause.as_str(),
            ),
            ApiError::Status { label, status, body } => match display_status(*status) {
                Some(shown) => refusal_message(label.as_str(), shown.as_str(), body.as_str()),
                None => refusal_message(label.as_str(), "", body.as_str()),
            },
            ApiError::Malformed => String::from_str("Failed to parse response"),
            ApiError::NoWanNetwork => String::from_str("No WAN network found"),
            ApiError::SettingNotFound { key } => glue3("Setting '", key.as_str(), "' not found"),
            ApiError::NotConfigured => String::from_str("Not configured. Run 'unifi config' first"),
            ApiError::ApiKeyNotConfigured => String::from_str(
                "API key not configured. Run 'unifi config' first",
            ),
        }
    }
}

} // verus!
