//! The service-wide error taxonomy and its mapping to HTTP status codes.
use crate::text::dec_seq;
use crate::text::u64_string;
use vstd::prelude::*;

verus! {

/// Every way a bot operation can fail, with enough structure to pick an
/// HTTP status and decide retryability.  I/O and JSON failures carry
/// their rendered messages.
#[derive(Debug, Clone, PartialEq, Eq)]
pub enum BotError {
    Config(String),
    Database(String),
    Http { status: u16, message: String },
    Auth(String),
    Validation(String),
    NotFound { entity: String },
    Conflict(String),
    RateLimited { retry_after_secs: u64 },
    ServiceUnavailable(String),
    Timeout { duration_ms: u64 },
    Internal(String),
    Io(String),
    Json(String),
    Other(String),
}

/// The HTTP status that each error maps to.
pub open spec fn spec_status_code(e: BotError) -> int {
    match e {
        BotError::Config(_) => 500,
        BotError::Database(_) => 500,
        BotError::Http { status, .. } => status as int,
        BotError::Auth(_) => 401,
        BotError::Validation(_) => 400,
        BotError::NotFound { .. } => 404,
        BotError::Conflict(_) => 409,
        BotError::RateLimited { .. } => 429,
        BotError::ServiceUnavailable(_) => 503,
        BotError::Timeout { .. } => 504,
        BotError::Internal(_) => 500,
        BotError::Io(_) => 500,
        BotError::Json(_) => 400,
        BotError::Other(_) => 500,
    }
}

/// The human-readable description of each error.
pub open spec fn bot_error_message(e: BotError) -> Seq<char> {
    match e {
        BotError::Config(m) => "Configuration error: "@ + m@,
        BotError::Database(m) => "Database error: "@ + m@,
        BotError::Http { status, message } => "HTTP error: "@ + dec_seq(status as nat) + " - "@
            + message@,
        BotError::Auth(m) => "Auth error: "@ + m@,
        BotError::Validation(m) => "Validation error: "@ + m@,
        BotError::NotFound { entity } => entity@ + " not found"@,
        BotError::Conflict(m) => "Conflict: "@ + m@,
        BotError::RateLimited { retry_after_secs } => "Rate limited: retry after "@ + dec_seq(
            retry_after_secs as nat,
        ) + "s"@,
        BotError::ServiceUnavailable(m) => "Service unavailable: "@ + m@,
        BotError::Timeout { duration_ms } => "Timeout after "@ + dec_seq(duration_ms as nat)
            + "ms"@,
        BotError::Internal(m) => "Internal error: "@ + m@,
        BotError::Io(m) => "IO error: "@ + m@,
        BotError::Json(m) => "JSON error: "@ + m@,
        BotError::Other(m) => m@,
    }
}

impl BotError {
    /// A configuration error.
    pub fn config(msg: &str) -> (r: Self)
        ensures
            r matches BotError::Config(m) && m@ == msg@,
    {
        BotError::Config(msg.to_owned())
    }

    /// A database error.
    pub fn database(msg: &str) -> (r: Self)
        ensures
            r matches BotError::Database(m) && m@ == msg@,
    {
        BotError::Database(msg.to_owned())
    }

    /// An HTTP error with an explicit status.
    pub fn http(status: u16, msg: &str) -> (r: Self)
        ensures
            r matches BotError::Http { status: s, message: m } && s == status && m@ == msg@,
    {
        BotError::Http { status, message: msg.to_owned() }
    }

    /// An HTTP error with the default 500 status.
    pub fn http_msg(msg: &str) -> (r: Self)
        ensures
            r matches BotError::Http { status: s, message: m } && s == 500 && m@ == msg@,
    {
        BotError::Http { status: 500, message: msg.to_owned() }
    }

    /// An authentication or authorization error.
    pub fn auth(msg: &str) -> (r: Self)
        ensures
            r matches BotError::Auth(m) && m@ == msg@,
    {
        BotError::Auth(msg.to_owned())
    }

    /// A request validation error.
    pub fn validation(msg: &str) -> (r: Self)
        ensures
            r matches BotError::Validation(m) && m@ == msg@,
    {
        BotError::Validation(msg.to_owned())
    }

    /// A missing entity.
    pub fn not_found(entity: &str) -> (r: Self)
        ensures
            r matches BotError::NotFound { entity: e } && e@ == entity@,
    {
        BotError::NotFound { entity: entity.to_owned() }
    }

    /// A conflicting request.
    pub fn conflict(msg: &str) -> (r: Self)
        ensures
            r matches BotError::Conflict(m) && m@ == msg@,
    {
        BotError::Conflict(msg.to_owned())
    }

    /// An admission-control rejection with a retry hint.
    pub fn rate_limited(retry_after_secs: u64) -> (r: Self)
        ensures
            r == (BotError::RateLimited { retry_after_secs }),
    {
        BotError::RateLimited { retry_after_secs }
    }

    /// A downstream service being unavailable.
    pub fn service_unavailable(msg: &str) -> (r: Self)
        ensures
            r matches BotError::ServiceUnavailable(m) && m@ == msg@,
    {
        BotError::ServiceUnavailable(msg.to_owned())
    }

    /// An elapsed deadline.
    pub fn timeout(duration_ms: u64) -> (r: Self)
        ensures
            r == (BotError::Timeout { duration_ms }),
    {
        BotError::Timeout { duration_ms }
    }

    /// An internal fault.
    pub fn internal(msg: &str) -> (r: Self)
        ensures
            r matches BotError::Internal(m) && m@ == msg@,
    {
        BotError::Internal(msg.to_owned())
    }

    /// The HTTP status this error maps to.
    pub fn status_code(&self) -> (r: u16)
        ensures
            r == spec_status_code(*self),
    {
        match self {
            BotError::Config(_) => 500,
            BotError::Database(_) => 500,
            BotError::Http { status, .. } => *status,
            BotError::Auth(_) => 401,
            BotError::Validation(_) => 400,
            BotError::NotFound { .. } => 404,
            BotError::Conflict(_) => 409,
            BotError::RateLimited { .. } => 429,
            BotError::ServiceUnavailable(_) => 503,
            BotError::Timeout { .. } => 504,
            BotError::Internal(_) => 500,
            BotError::Io(_) => 500,
            BotError::Json(_) => 400,
            BotError::Other(_) => 500,
        }
    }

    /// Whether a caller should consider trying again.
    pub fn is_retryable(&self) -> (r: bool)
        ensures
            r == match *self {
                BotError::RateLimited { .. } => true,
                BotError::ServiceUnavailable(_) => true,
                BotError::Timeout { .. } => true,
                BotError::Http { status, .. } => status >= 500,
                _ => false,
            },
    {
        match self {
            BotError::RateLimited { .. } | BotError::ServiceUnavailable(_)
                | BotError::Timeout { .. } => true,
            BotError::Http { status, .. } => *status >= 500,
            _ => false,
        }
    }

    /// Whether the mapped status is a 4xx.
    pub fn is_client_error(&self) -> (r: bool)
        ensures
            r == (400 <= spec_status_code(*self) < 500),
    {
        let code = self.status_code();
        400 <= code && code < 500
    }

    /// Whether the mapped status is a 5xx.
    pub fn is_server_error(&self) -> (r: bool)
        ensures
            r == (spec_status_code(*self) >= 500),
    {
        self.status_code() >= 500
    }

    /// Renders the error for humans.
    pub fn message(&self) -> (r: String)
        ensures
            r@ == bot_error_message(*self),
    {
        match self {
            BotError::Config(m) => {
                let mut s = String::from_str("Configuration error: ");
                s.append(m.as_str());
                s
            },
            BotError::Database(m) => {
                let mut s = String::from_str("Database error: ");
                s.append(m.as_str());
                s
            },
            BotError::Http { status, message } => {
                let mut s = String::from_str("HTTP error: ");
                let code = u64_string(*status as u64);
                s.append(code.as_str());
                s.append(" - ");
                s.append(message.as_str());
                s
            },
            BotError::Auth(m) => {
                let mut s = String::from_str("Auth error: ");
                s.append(m.as_str());
                s
            },
            BotError::Validation(m) => {
                let mut s = String::from_str("Validation error: ");
                s.append(m.as_str());
                s
            },
            BotError::NotFound { entity } => {
                let mut s = entity.clone();
                s.append(" not found");
                s
            },
            BotError::Conflict(m) => {
                let mut s = String::from_str("Conflict: ");
                s.append(m.as_str());
                s
            },
            BotError::RateLimited { retry_after_secs } => {
                let mut s = String::from_str("Rate limited: retry after ");
                let secs = u64_string(*retry_after_secs);
                s.append(secs.as_str());
                s.append("s");
                s
            },
            BotError::ServiceUnavailable(m) => {
                let mut s = String::from_str("Service unavailable: ");
                s.append(m.as_str());
                s
            },
            BotError::Timeout { duration_ms } => {
                let mut s = String::from_str("Timeout after ");
                let ms = u64_string(*duration_ms);
                s.append(ms.as_str());
                s.append("ms");
                s
            },
            BotError::Internal(m) => {
                let mut s = String::from_str("Internal error: ");
                s.append(m.as_str());
                s
            },
            BotError::Io(m) => {
                let mut s = String::from_str("IO error: ");
                s.append(m.as_str());
                s
            },
            BotError::Json(m) => {
                let mut s = String::from_str("JSON error: ");
                s.append(m.as_str());
                s
            },
            BotError::Other(m) => m.clone(),
        }
    }
}

} // verus!
