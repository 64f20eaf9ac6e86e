use vstd::prelude::*;
use crate::store::{Outcome, OutcomeView};

verus! {

pub const HTTP_OK: u16 = 200;
pub const HTTP_BAD_REQUEST: u16 = 400;
pub const HTTP_CONFLICT: u16 = 409;
pub const HTTP_TOO_MANY_REQUESTS: u16 = 429;
pub const HTTP_INTERNAL_ERROR: u16 = 500;

/// The status discriminator carried by acknowledgments and errors.
#[derive(PartialEq, Eq, Structural, Clone, Copy, Debug)]
pub enum Status {
    Success,
    Error,
}

/// Acknowledgment of a submission.
pub struct VerifyResponse {
    pub status: Status,
    pub message: String,
}

/// The verification status of a program.
pub struct StatusResponse {
    pub is_verified: bool,
    pub message: String,
    pub on_chain_hash: String,
    pub executable_hash: String,
    pub repo_url: String,
}

/// The one shape of every error.
pub struct ErrorResponse {
    pub status: Status,
    pub error: String,
}

/// A response body.
pub enum ApiResponse {
    Verify(VerifyResponse),
    Status(StatusResponse),
    Error(ErrorResponse),
}

pub ghost struct StatusView {
    pub is_verified: bool,
    pub message: Seq<char>,
    pub on_chain_hash: Seq<char>,
    pub executable_hash: Seq<char>,
    pub repo_url: Seq<char>,
}

pub ghost enum ApiView {
    Ack { status: Status, message: Seq<char> },
    Verdict(StatusView),
    Failure { status: Status, error: Seq<char> },
}

impl View for StatusResponse {
    type V = StatusView;

    open spec fn view(&self) -> StatusView {
        StatusView {
            is_verified: self.is_verified,
            message: self.message@,
            on_chain_hash: self.on_chain_hash@,
            executable_hash: self.executable_hash@,
            repo_url: self.repo_url@,
        }
    }
}

impl View for ApiResponse {
    type V = ApiView;

    open spec fn view(&self) -> ApiView {
        match self {
            ApiResponse::Verify(v) => ApiView::Ack { status: v.status, message: v.message@ },
            ApiResponse::Status(s) => ApiView::Verdict(s@),
            ApiResponse::Error(e) => ApiView::Failure { status: e.status, error: e.error@ },
        }
    }
}

/// The message that goes with a verdict; written here and nowhere else.
pub open spec fn verdict_text(is_verified: bool) -> Seq<char> {
    if is_verified {
        "On chain program verified"@
    } else {
        "On chain program not verified"@
    }
}

pub open spec fn not_found_text() -> Seq<char> {
    "No recent verification found for this program"@
}

pub open spec fn started_text() -> Seq<char> {
    "Build verification started"@
}

pub open spec fn in_progress_text() -> Seq<char> {
    "This request is already being processed"@
}

pub open spec fn generic_error_text() -> Seq<char> {
    "unexpected error occurred"@
}

pub open spec fn invalid_text() -> Seq<char> {
    "repository and program_id are required"@
}

pub open spec fn throttled_text() -> Seq<char> {
    "Too many requests, try again later"@
}

/// The status response that reports a stored outcome.
pub open spec fn verdict_view(o: OutcomeView) -> StatusView {
    StatusView {
        is_verified: o.is_verified,
        message: verdict_text(o.is_verified),
        on_chain_hash: o.on_chain_hash,
        executable_hash: o.executable_hash,
        repo_url: o.repo_url,
    }
}

/// The status response for a program with no fresh record.
pub open spec fn not_found_view() -> StatusView {
    StatusView {
        is_verified: false,
        message: not_found_text(),
        on_chain_hash: Seq::empty(),
        executable_hash: Seq::empty(),
        repo_url: Seq::empty(),
    }
}

pub open spec fn error_view(text: Seq<char>) -> ApiView {
    ApiView::Failure { status: Status::Error, error: text }
}

pub fn verdict_message(is_verified: bool) -> (r: String)
    ensures
        r@ == verdict_text(is_verified),
{
    if is_verified {
        String::from_str("On chain program verified")
    } else {
        String::from_str("On chain program not verified")
    }
}

/// Recasts a stored outcome as a status response.
pub fn status_of(o: &Outcome) -> (r: StatusResponse)
    ensures
        r@ == verdict_view(o@),
{
    StatusResponse {
        is_verified: o.is_verified,
        message: verdict_message(o.is_verified),
        on_chain_hash: o.on_chain_hash.clone(),
        executable_hash: o.executable_hash.clone(),
        repo_url: o.repo_url.clone(),
    }
}

pub fn not_found_status() -> (r: StatusResponse)
    ensures
        r@ == not_found_view(),
{
    let r = StatusResponse {
        is_verified: false,
        message: String::from_str("No recent verification found for this program"),
        on_chain_hash: String::new(),
        executable_hash: String::new(),
        repo_url: String::new(),
    };
    assert(r@ =~= not_found_view());
    r
}

pub fn ack(status: Status, message: &str) -> (r: ApiResponse)
    ensures
        r@ == (ApiView::Ack { status, message: message@ }),
{
    ApiResponse::Verify(VerifyResponse { status, message: String::from_str(message) })
}

pub fn error_response(text: &str) -> (r: ApiResponse)
    ensures
        r@ == error_view(text@),
{
    ApiResponse::Error(ErrorResponse { status: Status::Error, error: String::from_str(text) })
}

/// The response to a request that the admission controller turned away.
pub fn throttled() -> (r: (u16, ApiResponse))
    ensures
        r.0 == HTTP_TOO_MANY_REQUESTS,
        r.1@ == error_view(throttled_text()),
{
    (HTTP_TOO_MANY_REQUESTS, error_response("Too many requests, try again later"))
}

} // verus!
