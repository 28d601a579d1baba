//! The error taxonomy: every failure of an outbound call falls into exactly one of four
//! categories, each with a stable code; two identity policy conditions have codes of their
//! own. `ErrorEnvelope` is the one failure shape handed to resolvers.
use crate::codec::MalformedIdentifier;
use vstd::prelude::*;

verus! {

pub const UPSTREAM_REJECTED_CODE: u32 = 100;

pub const TRANSPORT_FAILURE_CODE: u32 = 200;

pub const DECODE_FAILURE_CODE: u32 = 300;

pub const UNKNOWN_CODE: u32 = 400;

pub const JWT_EXPIRED_CODE: u32 = 111;

pub const JWT_REVOKED_CODE: u32 = 112;

/// The structured error body that a backend may send with a non-success status.
pub struct UpstreamMessage {
    pub code: u16,
    pub message: String,
}

/// A failed outbound call, as the transport and the response decoder report it.
pub enum Failure {
    /// The backend answered with a status outside 2xx.
    Status { status: u16, body: Option<UpstreamMessage> },
    /// The call could not be completed: connection refused or reset, DNS failure.
    Connect { reason: String },
    /// The call ran over its time budget.
    Timeout,
    /// The response body did not have the expected shape.
    Decode { reason: String },
    /// Anything the transport could not classify.
    Other { reason: String },
}

/// The four failure categories.
#[derive(Clone, Copy, Debug, PartialEq, Eq, Structural)]
pub enum ErrorCategory {
    UpstreamRejected,
    TransportFailure,
    DecodeFailure,
    Unknown,
}

/// Every way a resolution can fail.
pub enum GatewayError {
    UpstreamRejected { status: u16, upstream: Option<UpstreamMessage> },
    TransportFailure { reason: String },
    DecodeFailure { reason: String },
    Unknown { reason: String },
    /// The presented credential is past its expiry.
    JwtExpired,
    /// The presented credential was issued before the holder's revocation time.
    JwtRevoked,
    /// No profile exists for the presented credential.
    IdentityNotFound,
    /// A failure that a resolver reports in its own words, with the code it falls under.
    Field { code: u32, message: String, reason: String },
}

/// The details of an error envelope.
pub enum ErrorDetails {
    /// The upstream status and, when the backend sent one, its own error body.
    Status { status: u16, upstream: Option<UpstreamMessage> },
    Text(String),
}

/// The failure shape that crosses the resolver boundary.
pub struct ErrorEnvelope {
    pub code: u32,
    pub message: String,
    pub details: ErrorDetails,
}

pub open spec fn category_code(c: ErrorCategory) -> u32 {
    match c {
        ErrorCategory::UpstreamRejected => UPSTREAM_REJECTED_CODE,
        ErrorCategory::TransportFailure => TRANSPORT_FAILURE_CODE,
        ErrorCategory::DecodeFailure => DECODE_FAILURE_CODE,
        ErrorCategory::Unknown => UNKNOWN_CODE,
    }
}

/// The category of a failure.
pub open spec fn failure_category(f: Failure) -> ErrorCategory {
    match f {
        Failure::Status { .. } => ErrorCategory::UpstreamRejected,
        Failure::Connect { .. } => ErrorCategory::TransportFailure,
        Failure::Timeout => ErrorCategory::TransportFailure,
        Failure::Decode { .. } => ErrorCategory::DecodeFailure,
        Failure::Other { .. } => ErrorCategory::Unknown,
    }
}

pub open spec fn timeout_reason() -> Seq<char> {
    "The call exceeded its time budget."@
}

/// What the mapper makes of a failure.
pub open spec fn mapped(f: Failure, e: GatewayError) -> bool {
    match f {
        Failure::Status { status, body } => e == GatewayError::UpstreamRejected {
            status,
            upstream: body,
        },
        Failure::Connect { reason } => e == GatewayError::TransportFailure { reason },
        Failure::Timeout => e matches GatewayError::TransportFailure { reason } && reason@
            == timeout_reason(),
        Failure::Decode { reason } => e == GatewayError::DecodeFailure { reason },
        Failure::Other { reason } => e == GatewayError::Unknown { reason },
    }
}

/// The code that an error is reported with.
pub open spec fn error_code(e: GatewayError) -> u32 {
    match e {
        GatewayError::UpstreamRejected { .. } => UPSTREAM_REJECTED_CODE,
        GatewayError::TransportFailure { .. } => TRANSPORT_FAILURE_CODE,
        GatewayError::DecodeFailure { .. } => DECODE_FAILURE_CODE,
        GatewayError::Unknown { .. } => UNKNOWN_CODE,
        GatewayError::JwtExpired => JWT_EXPIRED_CODE,
        GatewayError::JwtRevoked => JWT_REVOKED_CODE,
        GatewayError::IdentityNotFound => UPSTREAM_REJECTED_CODE,
        GatewayError::Field { code, .. } => code,
    }
}

/// The category of an error, for the four categories of the taxonomy.
pub open spec fn error_category(e: GatewayError) -> Option<ErrorCategory> {
    match e {
        GatewayError::UpstreamRejected { .. } => Some(ErrorCategory::UpstreamRejected),
        GatewayError::TransportFailure { .. } => Some(ErrorCategory::TransportFailure),
        GatewayError::DecodeFailure { .. } => Some(ErrorCategory::DecodeFailure),
        GatewayError::Unknown { .. } => Some(ErrorCategory::Unknown),
        _ => None,
    }
}

/// The message that an error is reported with.
pub open spec fn error_message(e: GatewayError) -> Seq<char> {
    match e {
        GatewayError::UpstreamRejected { .. } => "Microservice responded with an error status."@,
        GatewayError::TransportFailure { .. } => "Network error while calling a microservice."@,
        GatewayError::DecodeFailure { .. } => "Could not parse a response or build a request."@,
        GatewayError::Unknown { .. } => "Unknown error."@,
        GatewayError::JwtExpired => "JWT has been expired."@,
        GatewayError::JwtRevoked => "JWT has been revoked."@,
        GatewayError::IdentityNotFound => "Could not get user info by jwt token."@,
        GatewayError::Field { message, .. } => message@,
    }
}

/// The details that an error is reported with.
pub open spec fn details_of(e: GatewayError, d: ErrorDetails) -> bool {
    match e {
        GatewayError::UpstreamRejected { status, upstream } => d == ErrorDetails::Status {
            status,
            upstream,
        },
        GatewayError::TransportFailure { reason } => d == ErrorDetails::Text(reason),
        GatewayError::DecodeFailure { reason } => d == ErrorDetails::Text(reason),
        GatewayError::Unknown { reason } => d == ErrorDetails::Text(reason),
        GatewayError::JwtExpired => d matches ErrorDetails::Text(t) && t@
            == "Current JWT in request header has been expired."@,
        GatewayError::JwtRevoked => d matches ErrorDetails::Text(t) && t@
            == "Current JWT can not be used anymore."@,
        GatewayError::IdentityNotFound => d matches ErrorDetails::Text(t) && t@
            == "User not found."@,
        GatewayError::Field { reason, .. } => d == ErrorDetails::Text(reason),
    }
}

impl Failure {
    /// The category this failure falls into.
    pub fn category(&self) -> (r: ErrorCategory)
        ensures
            r == failure_category(*self),
    {
        match self {
            Failure::Status { .. } => ErrorCategory::UpstreamRejected,
            Failure::Connect { .. } => ErrorCategory::TransportFailure,
            Failure::Timeout => ErrorCategory::TransportFailure,
            Failure::Decode { .. } => ErrorCategory::DecodeFailure,
            Failure::Other { .. } => ErrorCategory::Unknown,
        }
    }
}

impl ErrorCategory {
    /// The stable code of this category.
    pub fn code(&self) -> (r: u32)
        ensures
            r == category_code(*self),
    {
        match self {
            ErrorCategory::UpstreamRejected => UPSTREAM_REJECTED_CODE,
            ErrorCategory::TransportFailure => TRANSPORT_FAILURE_CODE,
            ErrorCategory::DecodeFailure => DECODE_FAILURE_CODE,
            ErrorCategory::Unknown => UNKNOWN_CODE,
        }
    }
}

/// A response status is a success exactly when it is 2xx; any other status is an
/// upstream failure carrying the status and the backend's own error body.
pub fn classify_status(status: u16, body: Option<UpstreamMessage>) -> (r: Option<Failure>)
    ensures
        200 <= status < 300 ==> r is None,
        !(200 <= status < 300) ==> r == Some(Failure::Status { status, body }),
{
    if 200 <= status && status < 300 {
        None
    } else {
        Some(Failure::Status { status, body })
    }
}

/// Classifies a failed call. Total: a failure the transport could not classify becomes
/// `Unknown`.
pub fn map_failure(f: Failure) -> (r: GatewayError)
    ensures
        mapped(f, r),
        error_category(r) == Some(failure_category(f)),
        error_code(r) == category_code(failure_category(f)),
{
    match f {
        Failure::Status { status, body } => GatewayError::UpstreamRejected { status, upstream: body },
        Failure::Connect { reason } => GatewayError::TransportFailure { reason },
        Failure::Timeout => {
            let reason = String::from_str("The call exceeded its time budget.");
            GatewayError::TransportFailure { reason }
        },
        Failure::Decode { reason } => GatewayError::DecodeFailure { reason },
        Failure::Other { reason } => GatewayError::Unknown { reason },
    }
}

pub open spec fn malformed_reason(id: Seq<char>) -> Seq<char> {
    "Malformed identifier: "@ + id
}

/// The error for an identifier that does not decode: a decode failure naming it.
pub fn malformed_id_error(id: &str, _e: MalformedIdentifier) -> (r: GatewayError)
    ensures
        r matches GatewayError::DecodeFailure { reason } && reason@ == malformed_reason(id@),
{
    let mut reason = String::from_str("Malformed identifier: ");
    reason.append(id);
    GatewayError::DecodeFailure { reason }
}

impl GatewayError {
    /// The code this error is reported with.
    pub fn code(&self) -> (r: u32)
        ensures
            r == error_code(*self),
    {
        match self {
            GatewayError::UpstreamRejected { .. } => UPSTREAM_REJECTED_CODE,
            GatewayError::TransportFailure { .. } => TRANSPORT_FAILURE_CODE,
            GatewayError::DecodeFailure { .. } => DECODE_FAILURE_CODE,
            GatewayError::Unknown { .. } => UNKNOWN_CODE,
            GatewayError::JwtExpired => JWT_EXPIRED_CODE,
            GatewayError::JwtRevoked => JWT_REVOKED_CODE,
            GatewayError::IdentityNotFound => UPSTREAM_REJECTED_CODE,
            GatewayError::Field { code, .. } => *code,
        }
    }

    /// The envelope this error is reported in.
    pub fn into_envelope(self) -> (r: ErrorEnvelope)
        ensures
            r.code == error_code(self),
            r.message@ == error_message(self),
            details_of(self, r.details),
    {
        let code = self.code();
        match self {
            GatewayError::UpstreamRejected { status, upstream } => ErrorEnvelope {
                code,
                message: String::from_str("Microservice responded with an error status."),
                details: ErrorDetails::Status { status, upstream },
            },
            GatewayError::TransportFailure { reason } => ErrorEnvelope {
                code,
                message: String::from_str("Network error while calling a microservice."),
                details: ErrorDetails::Text(reason),
            },
            GatewayError::DecodeFailure { reason } => ErrorEnvelope {
                code,
                message: String::from_str("Could not parse a response or build a request."),
                details: ErrorDetails::Text(reason),
            },
            GatewayError::Unknown { reason } => ErrorEnvelope {
                code,
                message: String::from_str("Unknown error."),
                details: ErrorDetails::Text(reason),
            },
            GatewayError::JwtExpired => ErrorEnvelope {
                code,
                message: String::from_str("JWT has been expired."),
                details: ErrorDetails::Text(
                    String::from_str("Current JWT in request header has been expired."),
                ),
            },
            GatewayError::JwtRevoked => ErrorEnvelope {
                code,
                message: String::from_str("JWT has been revoked."),
                details: ErrorDetails::Text(String::from_str("Current JWT can not be used anymore.")),
            },
            GatewayError::IdentityNotFound => ErrorEnvelope {
                code,
                message: String::from_str("Could not get user info by jwt token."),
                details: ErrorDetails::Text(String::from_str("User not found.")),
            },
            GatewayError::Field { code, message, reason } => ErrorEnvelope {
                code,
                message,
                details: ErrorDetails::Text(reason),
            },
        }
    }
}

/// Reports a failed call: classify it, then wrap it in its envelope.
pub fn failure_envelope(f: Failure) -> (r: ErrorEnvelope)
    ensures
        r.code == category_code(failure_category(f)),
        exists|e: GatewayError|
            mapped(f, e) && r.message@ == error_message(e) && details_of(e, r.details),
{
    let e = map_failure(f);
    e.into_envelope()
}

} // verus!
