//! The answers of the service: an HTTP status, a code, a message and data.
use crate::error::{ServiceError, ServiceErrorCode};
use crate::native::{
    status_bad_request, status_conflict, status_ok, status_service_unavailable,
    status_unauthorized, status_unprocessable_entity,
};
use crate::proxy::ProxyApplyOutcome;
use vstd::prelude::*;
use vstd::string::*;

verus! {

/// By what a client knows a session that was started for it.
#[derive(Clone, Copy, Debug, PartialEq, Eq, Structural)]
pub struct OwnerSessionHandle {
    pub generation: u64,
}

/// What a client learns of the core that was started for it.
#[derive(Debug)]
pub struct StartClashResult {
    pub session: OwnerSessionHandle,
    pub proxy_outcome: ProxyApplyOutcome,
}

/// The code of an answer: a number, or the kind of a service error.
#[derive(Clone, Copy, Debug, PartialEq, Eq, Structural)]
pub enum ReplyCode {
    Number(u16),
    Error(ServiceErrorCode),
}

/// What an answer carries. `D` is what this module knows nothing of: a status,
/// logs, a description of the protocol.
#[derive(Debug)]
pub enum ReplyData<D> {
    Nothing,
    Started(StartClashResult),
    ProxyOutcome(ProxyApplyOutcome),
    LogSnapshot(String),
    Other(D),
}

/// An answer.
#[derive(Debug)]
pub struct Reply<D> {
    pub status: u16,
    pub code: ReplyCode,
    pub message: String,
    pub data: ReplyData<D>,
}

impl<D> Reply<D> {
    /// Whether this is the answer with these four parts.
    pub open spec fn is(
        &self,
        status: u16,
        code: ReplyCode,
        message: Seq<char>,
        data: ReplyData<D>,
    ) -> bool {
        &&& self.status == status
        &&& self.code == code
        &&& self.message@ == message
        &&& self.data == data
    }
}

/// Whether this answer carries what was asked for.
pub open spec fn is_success<D>(reply: Reply<D>, data: ReplyData<D>) -> bool {
    reply.is(200, ReplyCode::Number(0), "Success"@, data)
}

/// Whether this answer tells of success in these words.
pub open spec fn is_done<D>(reply: Reply<D>, message: Seq<char>) -> bool {
    reply.is(200, ReplyCode::Number(0), message, ReplyData::Nothing)
}

/// Whether this answer tells that the service could not do what it was asked.
pub open spec fn is_unavailable<D>(reply: Reply<D>, message: Seq<char>) -> bool {
    reply.is(503, ReplyCode::Number(1), message, ReplyData::Nothing)
}

/// Whether this answer tells that the request makes no sense.
pub open spec fn is_bad_request<D>(reply: Reply<D>, message: Seq<char>) -> bool {
    reply.is(400, ReplyCode::Number(400), message, ReplyData::Nothing)
}

/// The HTTP status under which a kind of error is told.
pub open spec fn error_status(code: ServiceErrorCode) -> u16 {
    if code == ServiceErrorCode::UnauthorizedOwner {
        401
    } else if code == ServiceErrorCode::NotActive {
        409
    } else {
        422
    }
}

/// Whether this answer tells of an error of this kind, with this message.
pub open spec fn is_error<D>(reply: Reply<D>, code: ServiceErrorCode, message: Seq<char>) -> bool {
    reply.is(error_status(code), ReplyCode::Error(code), message, ReplyData::Nothing)
}

/// The answer with these four parts.
pub fn json_response<D>(
    status: u16,
    code: ReplyCode,
    message: String,
    data: ReplyData<D>,
) -> (reply: Reply<D>)
    ensures
        reply.is(status, code, message@, data),
{
    Reply { status, code, message, data }
}

/// The answer that carries what was asked for.
pub fn ok_json<D>(data: ReplyData<D>) -> (reply: Reply<D>)
    ensures
        is_success(reply, data),
{
    json_response(status_ok(), ReplyCode::Number(0), "Success".to_owned(), data)
}

/// The answer that what was asked for is done.
pub fn ok_empty<D>(message: String) -> (reply: Reply<D>)
    ensures
        is_done(reply, message@),
{
    json_response(status_ok(), ReplyCode::Number(0), message, ReplyData::Nothing)
}

/// The answer that the service could not do what it was asked.
pub fn service_unavailable<D>(message: String) -> (reply: Reply<D>)
    ensures
        is_unavailable(reply, message@),
{
    json_response(
        status_service_unavailable(),
        ReplyCode::Number(1),
        message,
        ReplyData::Nothing,
    )
}

/// The answer that the request makes no sense.
pub fn bad_request<D>(message: String) -> (reply: Reply<D>)
    ensures
        is_bad_request(reply, message@),
{
    json_response(
        status_bad_request(),
        ReplyCode::Number(status_bad_request()),
        message,
        ReplyData::Nothing,
    )
}

/// The answer that tells of an error.
pub fn service_error<D>(error: ServiceError) -> (reply: Reply<D>)
    ensures
        is_error(reply, error.code, error.message@),
{
    let status: u16 = match error.code {
        ServiceErrorCode::UnauthorizedOwner => status_unauthorized(),
        ServiceErrorCode::NotActive => status_conflict(),
        _ => status_unprocessable_entity(),
    };
    json_response(status, ReplyCode::Error(error.code), error.message, ReplyData::Nothing)
}

/// A client can tell by the status alone whether its request succeeded: no
/// failure is answered with the status of a success.
pub proof fn failures_have_other_statuses<D>(
    reply: Reply<D>,
    code: ServiceErrorCode,
    message: Seq<char>,
)
    requires
        is_unavailable(reply, message) || is_bad_request(reply, message) || is_error(
            reply,
            code,
            message,
        ),
    ensures
        reply.status != 200,
        reply.code != ReplyCode::Number(0),
        reply.data == ReplyData::<D>::Nothing,
{
}

/// Under which status a client finds what. Success is 200, with the code 0 and the data
/// or the words of the answer; a request that makes no sense is 400, and what the service
/// could not do is 503. Of the errors, that of an owner that is not authorized is 401,
/// that of one that is not active is 409, and every other is 422; each tells its kind and
/// its own text. No failure carries data.
pub proof fn answers_are_told_by_status<D>(
    reply: Reply<D>,
    data: ReplyData<D>,
    code: ServiceErrorCode,
    message: Seq<char>,
)
    ensures
        is_success(reply, data) <==> reply.status == 200 && reply.code == ReplyCode::Number(0)
            && reply.message@ == "Success"@ && reply.data == data,
        is_done(reply, message) <==> reply.status == 200 && reply.code == ReplyCode::Number(0)
            && reply.message@ == message && reply.data is Nothing,
        is_unavailable(reply, message) <==> reply.status == 503 && reply.code == ReplyCode::Number(
            1,
        ) && reply.message@ == message && reply.data is Nothing,
        is_bad_request(reply, message) <==> reply.status == 400 && reply.code == ReplyCode::Number(
            400,
        ) && reply.message@ == message && reply.data is Nothing,
        is_error(reply, code, message) <==> {
            &&& reply.status == (match code {
                ServiceErrorCode::UnauthorizedOwner => 401u16,
                ServiceErrorCode::NotActive => 409u16,
                _ => 422u16,
            })
            &&& reply.code == ReplyCode::Error(code)
            &&& reply.message@ == message
            &&& reply.data is Nothing
        },
{
}

} // verus!
