//! The closed set of failures that the client surfaces.
//!
//! A decision field that says "no" (`allowed == false`) is never one of these:
//! only a call that failed is.
use vstd::prelude::*;

verus! {

/// The gRPC status code that the service uses for an entity that does not exist.
pub const NOT_FOUND_CODE: i32 = 5;

/// A failed operation, classified into one kind that callers can branch on.
#[derive(Debug, Clone, PartialEq, Eq)]
pub enum SdkError {
    /// The channel could not be established, or the transport reported it lost.
    Transport(String),
    /// The remote call failed with a status that no other kind covers.
    Status { code: i32, message: String },
    /// The target organization, agent, policy or budget does not exist.
    NotFound(String),
    /// The call itself could not proceed because of policy. Reserved: no status
    /// of the service is classified as this kind.
    PolicyDenied(String),
    /// The call itself failed on an exhausted budget. Reserved: no status of the
    /// service is classified as this kind.
    BudgetExhausted(String),
}

#[verifier::external_type_specification]
#[verifier::external_body]
pub struct ExStatus(tonic::Status);

#[verifier::external_type_specification]
#[verifier::external_body]
pub struct ExTransportError(tonic::transport::Error);

/// The numeric gRPC code that a status holds.
pub uninterp spec fn status_code_of(status: tonic::Status) -> i32;

/// The text message that a status holds.
pub uninterp spec fn status_message_of(status: tonic::Status) -> Seq<char>;

/// The description that a transport error gives of itself.
pub uninterp spec fn transport_text_of(err: tonic::transport::Error) -> Seq<char>;

/// Relies on tonic::Status::code, which returns the code field of the status, and
/// on the discriminants of tonic::Code, which run from 0 (`Ok`) to 16 (`Unauthenticated`).
#[verifier::external_body]
fn status_code(status: &tonic::Status) -> (r: i32)
    ensures
        r == status_code_of(*status),
        0 <= r <= 16,
{
    i32::from(status.code())
}

/// Relies on tonic::Status::message, which returns the message field of the status.
#[verifier::external_body]
fn status_message(status: &tonic::Status) -> (r: String)
    ensures
        r@ == status_message_of(*status),
{
    status.message().to_string()
}

/// Relies on tonic::transport::Error's `Display`: a fixed description of the error's kind.
#[verifier::external_body]
fn transport_error_text(err: &tonic::transport::Error) -> (r: String)
    ensures
        r@ == transport_text_of(*err),
{
    err.to_string()
}

impl SdkError {
    /// Classifies a failure status: a not-found status becomes `NotFound`, every
    /// other status a generic `Status` failure carrying the code and message.
    pub fn from_status_parts(code: i32, message: String) -> (r: SdkError)
        ensures
            code == NOT_FOUND_CODE ==> r == SdkError::NotFound(message),
            code != NOT_FOUND_CODE ==> r == (SdkError::Status { code, message }),
    {
        if code == NOT_FOUND_CODE {
            SdkError::NotFound(message)
        } else {
            SdkError::Status { code, message }
        }
    }

    /// Classifies the status of a failed remote call, as `from_status_parts` does with
    /// the status's code and message. The result is `NotFound` or `Status`, never one
    /// of the reserved kinds nor a transport failure.
    pub fn from_status(status: &tonic::Status) -> (r: SdkError)
        ensures
            status_code_of(*status) == NOT_FOUND_CODE ==> (r matches SdkError::NotFound(m)
                && m@ == status_message_of(*status)),
            status_code_of(*status) != NOT_FOUND_CODE ==> (r matches SdkError::Status {
                code,
                message,
            } && code == status_code_of(*status) && message@ == status_message_of(*status)),
            r matches SdkError::Status { code, .. } ==> 0 <= code <= 16,
    {
        let code = status_code(status);
        let message = status_message(status);
        SdkError::from_status_parts(code, message)
    }

    /// A failure to establish or keep the channel.
    pub fn from_transport(err: &tonic::transport::Error) -> (r: SdkError)
        ensures
            r matches SdkError::Transport(m) && m@ == transport_text_of(*err),
    {
        SdkError::Transport(transport_error_text(err))
    }

    /// The human-readable message of the failure, for diagnostics only.
    pub fn describe(&self) -> (r: String)
        ensures
            self matches SdkError::NotFound(m) ==> r@ == "not found: "@ + m@,
            self matches SdkError::Transport(m) ==> r@ == "transport error: "@ + m@,
            self matches SdkError::Status { message, .. } ==> r@ == "status error: "@ + message@,
            self matches SdkError::PolicyDenied(m) ==> r@ == "policy denied: "@ + m@,
            self matches SdkError::BudgetExhausted(m) ==> r@ == "budget exhausted: "@ + m@,
    {
        match self {
            SdkError::Transport(m) => String::from_str("transport error: ").concat(m.as_str()),
            SdkError::Status { message, .. } => String::from_str("status error: ").concat(
                message.as_str(),
            ),
            SdkError::NotFound(m) => String::from_str("not found: ").concat(m.as_str()),
            SdkError::PolicyDenied(m) => String::from_str("policy denied: ").concat(m.as_str()),
            SdkError::BudgetExhausted(m) => String::from_str("budget exhausted: ").concat(
                m.as_str(),
            ),
        }
    }
}

} // verus!
