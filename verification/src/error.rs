//! Errors of the daemon and of the AI providers, with the messages they display.
use vstd::prelude::*;

use crate::text::{concat, decimal, usize_to_decimal};

verus! {

/// Failures of an AI provider.
#[derive(Debug, Clone)]
pub enum ProviderError {
    Unavailable { provider: String },
    Http { message: String },
    ParseError(String),
    ContextOverflow { available: usize, required: usize },
    AuthRequired { provider: String },
    RateLimited { provider: String },
    StreamInterrupted(String),
}

/// Failures of the daemon. Errors that come from outside the library (database, I/O,
/// serialization) are carried as their message text.
#[derive(Debug, Clone)]
pub enum DaemonError {
    Database(String),
    Provider(ProviderError),
    Config(String),
    Io(String),
    Serialization(String),
    Internal(String),
}

/// The text a `ProviderError` displays.
pub open spec fn provider_error_text(e: ProviderError) -> Seq<char> {
    match e {
        ProviderError::Unavailable { provider } => "Provider '"@ + provider@ + "' is unavailable"@,
        ProviderError::Http { message } => "HTTP request failed: "@ + message@,
        ProviderError::ParseError(m) => "Provider response could not be parsed: "@ + m@,
        ProviderError::ContextOverflow { available, required } => "Context overflow: available_tokens="@
            + decimal(available as nat) + ", required="@ + decimal(required as nat),
        ProviderError::AuthRequired { provider } => "Authentication required for provider '"@
            + provider@ + "'"@,
        ProviderError::RateLimited { provider } => "Rate limited by provider '"@ + provider@
            + "'"@,
        ProviderError::StreamInterrupted(m) => "Stream interrupted: "@ + m@,
    }
}

/// The text a `DaemonError` displays.
pub open spec fn daemon_error_text(e: DaemonError) -> Seq<char> {
    match e {
        DaemonError::Database(m) => "Database error: "@ + m@,
        DaemonError::Provider(p) => "AI provider error: "@ + provider_error_text(p),
        DaemonError::Config(m) => "Configuration error: "@ + m@,
        DaemonError::Io(m) => "IO error: "@ + m@,
        DaemonError::Serialization(m) => "Serialization error: "@ + m@,
        DaemonError::Internal(m) => "Internal error: "@ + m@,
    }
}

impl ProviderError {
    /// The message of the error, as it is shown to users and logs.
    pub fn to_string(&self) -> (r: String)
        ensures
            r@ == provider_error_text(*self),
    {
        match self {
            ProviderError::Unavailable { provider } => {
                let mut r = concat("Provider '", provider.as_str());
                r.append("' is unavailable");
                r
            },
            ProviderError::Http { message } => concat("HTTP request failed: ", message.as_str()),
            ProviderError::ParseError(m) => concat(
                "Provider response could not be parsed: ",
                m.as_str(),
            ),
            ProviderError::ContextOverflow { available, required } => {
                let mut r = concat(
                    "Context overflow: available_tokens=",
                    usize_to_decimal(*available).as_str(),
                );
                r.append(", required=");
                r.append(usize_to_decimal(*required).as_str());
                r
            },
            ProviderError::AuthRequired { provider } => {
                let mut r = concat("Authentication required for provider '", provider.as_str());
                r.append("'");
                r
            },
            ProviderError::RateLimited { provider } => {
                let mut r = concat("Rate limited by provider '", provider.as_str());
                r.append("'");
                r
            },
            ProviderError::StreamInterrupted(m) => concat("Stream interrupted: ", m.as_str()),
        }
    }
}

impl DaemonError {
    /// The message of the error, as it is shown to users and logs.
    pub fn to_string(&self) -> (r: String)
        ensures
            r@ == daemon_error_text(*self),
    {
        match self {
            DaemonError::Database(m) => concat("Database error: ", m.as_str()),
            DaemonError::Provider(p) => concat("AI provider error: ", p.to_string().as_str()),
            DaemonError::Config(m) => concat("Configuration error: ", m.as_str()),
            DaemonError::Io(m) => concat("IO error: ", m.as_str()),
            DaemonError::Serialization(m) => concat("Serialization error: ", m.as_str()),
            DaemonError::Internal(m) => concat("Internal error: ", m.as_str()),
        }
    }
}

} // verus!
