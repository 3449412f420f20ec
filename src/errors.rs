//! The client's error kinds and its standard messages.
use vstd::prelude::*;
use crate::text::{decimal, push_decimal};

verus! {

pub const TEAM_REQUIRED: &'static str =
    "Team is required. Use --team flag or set HONEYCOMB_TEAM environment variable.";

pub const ENVIRONMENT_REQUIRED: &'static str =
    "Environment is required. Use --environment flag or set HONEYCOMB_ENVIRONMENT environment variable.";

pub const MANAGEMENT_KEY_REQUIRED: &'static str =
    "Management API key required for v2 endpoints. Set HONEYCOMB_MANAGEMENT_API_KEY_ID and HONEYCOMB_MANAGEMENT_API_KEY.";

pub const CONFIG_KEY_REQUIRED: &'static str =
    "Configuration API key required for v1 endpoints. Set HONEYCOMB_CONFIGURATION_API_KEY.";

/// The errors a command reports.
#[derive(Debug)]
pub enum ApiaryError {
    /// Authentication required but not provided
    AuthenticationRequired(String),
    /// Resource not found
    NotFound { resource: String, identifier: String },
    /// Validation error
    ValidationError(String),
    /// API communication error
    ApiError { status: u16, message: String },
    /// Configuration error
    ConfigError(String),
}

impl ApiaryError {
    /// The text shown for the error.
    pub open spec fn message_spec(&self) -> Seq<char> {
        match self {
            ApiaryError::AuthenticationRequired(endpoint) => "Authentication required for endpoint '"@
                + endpoint@ + "'. Please set appropriate API keys."@,
            ApiaryError::NotFound { resource, identifier } => resource@ + " '"@ + identifier@
                + "' not found"@,
            ApiaryError::ValidationError(msg) => "Validation error: "@ + msg@,
            ApiaryError::ApiError { status, message } => "API error ("@ + decimal(*status as nat)
                + "): "@ + message@,
            ApiaryError::ConfigError(msg) => "Configuration error: "@ + msg@,
        }
    }

    /// The text shown for the error.
    pub fn to_string(&self) -> (r: String)
        ensures
            r@ == self.message_spec(),
    {
        match self {
            ApiaryError::AuthenticationRequired(endpoint) => {
                let mut s = String::from_str("Authentication required for endpoint '");
                s.append(endpoint.as_str());
                s.append("'. Please set appropriate API keys.");
                s
            },
            ApiaryError::NotFound { resource, identifier } => {
                let mut s = String::from_str(resource.as_str());
                s.append(" '");
                s.append(identifier.as_str());
                s.append("' not found");
                s
            },
            ApiaryError::ValidationError(msg) => {
                let mut s = String::from_str("Validation error: ");
                s.append(msg.as_str());
                s
            },
            ApiaryError::ApiError { status, message } => {
                let mut s = String::from_str("API error (");
                push_decimal(&mut s, *status as u64);
                s.append("): ");
                s.append(message.as_str());
                s
            },
            ApiaryError::ConfigError(msg) => {
                let mut s = String::from_str("Configuration error: ");
                s.append(msg.as_str());
                s
            },
        }
    }
}

/// One field looked up in a JSON error body: missing, a string, or some other value.
#[derive(Clone, Debug)]
pub enum JsonField {
    Absent,
    Text(String),
    Other,
}

/// The message an API error body carries: its `error` field when present,
/// otherwise its `message` field; the field's text if it is a string, and
/// `Unknown error` in every other case.
pub open spec fn api_error_message(error: JsonField, message: JsonField) -> Seq<char> {
    let chosen = if error is Absent {
        message
    } else {
        error
    };
    match chosen {
        JsonField::Text(t) => t@,
        _ => "Unknown error"@,
    }
}

/// Turns a failed response's status and body fields into an error.
pub fn parse_api_error(status: u16, error: JsonField, message: JsonField) -> (r: ApiaryError)
    ensures
        r matches ApiaryError::ApiError { status: s, message: m } && s == status && m@
            == api_error_message(error, message),
{
    let chosen = match error {
        JsonField::Absent => message,
        _ => error,
    };
    let text = match chosen {
        JsonField::Text(t) => t,
        _ => String::from_str("Unknown error"),
    };
    ApiaryError::ApiError { status, message: text }
}

/// The message for an environment that the team does not have.
pub open spec fn environment_not_found_text(env: Seq<char>, team: Seq<char>) -> Seq<char> {
    "Environment '"@ + env + "' not found in team '"@ + team
        + "'. Use 'apiary environments list --team "@ + team
        + "' to see available environments."@
}

/// The message for an environment that the team does not have.
pub fn environment_not_found(env: &str, team: &str) -> (r: String)
    ensures
        r@ == environment_not_found_text(env@, team@),
{
    let mut s = String::from_str("Environment '");
    s.append(env);
    s.append("' not found in team '");
    s.append(team);
    s.append("'. Use 'apiary environments list --team ");
    s.append(team);
    s.append("' to see available environments.");
    s
}

} // verus!
