//! The errors that a request to the service can end in.
use vstd::prelude::*;

verus! {

/// What kind of refusal or failure a client is told about.
#[derive(Clone, Copy, Debug, PartialEq, Eq, Structural)]
pub enum ServiceErrorCode {
    ProtocolMismatch,
    UnauthorizedOwner,
    NotActive,
    StaleOwnerSession,
    InvalidRuntimeAsset,
    InvalidInstallLocation,
    InvalidProxyConfig,
    ProxyClearFailed,
    ProxyApplyFailed,
    OwnerSwitchFailed,
}

/// A failure with its kind and the message that the client sees.
#[derive(Debug)]
pub struct ServiceError {
    pub code: ServiceErrorCode,
    pub message: String,
}

impl ServiceError {
    /// Whether this is the error of kind `code` with the text `message`.
    pub open spec fn is(&self, code: ServiceErrorCode, message: Seq<char>) -> bool {
        &&& self.code == code
        &&& self.message@ == message
    }

    /// The error of kind `code` with the text `message`.
    pub fn new(code: ServiceErrorCode, message: String) -> (error: ServiceError)
        ensures
            error.is(code, message@),
    {
        ServiceError { code, message }
    }

    /// The client speaks another version of the protocol.
    pub fn protocol_mismatch() -> (error: ServiceError)
        ensures
            error.is(
                ServiceErrorCode::ProtocolMismatch,
                "Service protocol version is not supported"@,
            ),
    {
        ServiceError::new(
            ServiceErrorCode::ProtocolMismatch,
            "Service protocol version is not supported".to_owned(),
        )
    }

    /// Another owner, or none, is the active one.
    pub fn not_active() -> (error: ServiceError)
        ensures
            error.is(ServiceErrorCode::NotActive, "Owner is not active"@),
    {
        ServiceError::new(ServiceErrorCode::NotActive, "Owner is not active".to_owned())
    }

    /// The session that the client proves is not the current one.
    pub fn stale_owner_session() -> (error: ServiceError)
        ensures
            error.is(ServiceErrorCode::StaleOwnerSession, "Owner session is stale"@),
    {
        ServiceError::new(ServiceErrorCode::StaleOwnerSession, "Owner session is stale".to_owned())
    }

    /// The proxy of an owner could not be cleared.
    pub fn proxy_clear_failed(message: String) -> (error: ServiceError)
        ensures
            error.is(ServiceErrorCode::ProxyClearFailed, message@),
    {
        ServiceError::new(ServiceErrorCode::ProxyClearFailed, message)
    }

    /// The proxy of an owner could not be applied.
    pub fn proxy_apply_failed(message: String) -> (error: ServiceError)
        ensures
            error.is(ServiceErrorCode::ProxyApplyFailed, message@),
    {
        ServiceError::new(ServiceErrorCode::ProxyApplyFailed, message)
    }

    /// An owner could not take the service over.
    pub fn owner_switch_failed(message: String) -> (error: ServiceError)
        ensures
            error.is(ServiceErrorCode::OwnerSwitchFailed, message@),
    {
        ServiceError::new(ServiceErrorCode::OwnerSwitchFailed, message)
    }

    /// A client asks for a proxy that makes no sense.
    pub fn invalid_proxy_config(message: String) -> (error: ServiceError)
        ensures
            error.is(ServiceErrorCode::InvalidProxyConfig, message@),
    {
        ServiceError::new(ServiceErrorCode::InvalidProxyConfig, message)
    }
}

/// The refusal of a runtime bundle, or a failure to lay it out.
pub fn invalid_asset(message: String) -> (error: ServiceError)
    ensures
        error.is(ServiceErrorCode::InvalidRuntimeAsset, message@),
{
    ServiceError::new(ServiceErrorCode::InvalidRuntimeAsset, message)
}

/// Whether an error refuses a runtime bundle with the text `message`.
pub open spec fn is_invalid_asset(error: ServiceError, message: Seq<char>) -> bool {
    error.is(ServiceErrorCode::InvalidRuntimeAsset, message)
}

/// An error is known by its kind and its text, both of them.
pub proof fn errors_are_known_by_kind_and_text(
    error: ServiceError,
    code: ServiceErrorCode,
    message: Seq<char>,
)
    ensures
        error.is(code, message) <==> error.code == code && error.message@ == message,
        is_invalid_asset(error, message) <==> error.code == ServiceErrorCode::InvalidRuntimeAsset
            && error.message@ == message,
{
}

} // verus!
