//! How the API answers when it cannot do what is asked.

use vstd::prelude::*;
use vstd::string::*;
use crate::error::{Failure, FailureKind, FailureView};

verus! {

/// Why a request was turned down; each carries what it is about.
#[derive(Clone, Debug, PartialEq, Eq)]
pub enum ErrorResponse {
    NotFound(String),
    Conflict(String),
    Unauthorized(String),
}

pub enum ErrorResponseView {
    NotFound(Seq<char>),
    Conflict(Seq<char>),
    Unauthorized(Seq<char>),
}

impl View for ErrorResponse {
    type V = ErrorResponseView;

    open spec fn view(&self) -> ErrorResponseView {
        match *self {
            ErrorResponse::NotFound(what) => ErrorResponseView::NotFound(what@),
            ErrorResponse::Conflict(what) => ErrorResponseView::Conflict(what@),
            ErrorResponse::Unauthorized(what) => ErrorResponseView::Unauthorized(what@),
        }
    }
}

impl DeepView for ErrorResponse {
    type V = ErrorResponseView;

    open spec fn deep_view(&self) -> ErrorResponseView {
        self@
    }
}

/// The HTTP status of a refusal.
pub open spec fn status_of(response: ErrorResponse) -> u16 {
    match response {
        ErrorResponse::NotFound(_) => 404,
        ErrorResponse::Conflict(_) => 409,
        ErrorResponse::Unauthorized(_) => 401,
    }
}

/// How a failure is turned down: a microVM that is not on record as not
/// found; a tap device, MAC address, API socket, project directory, name
/// or id that another microVM has as a conflict; missing privilege as
/// unauthorized; each about the failure's subject.  Any other failure is
/// the server's own and no refusal.
pub open spec fn refusal_of(failure: FailureView) -> Option<ErrorResponseView> {
    match failure.kind {
        FailureKind::VmNotFound => Some(ErrorResponseView::NotFound(failure.subject)),
        FailureKind::TapInUse => Some(ErrorResponseView::Conflict(failure.subject)),
        FailureKind::MacInUse => Some(ErrorResponseView::Conflict(failure.subject)),
        FailureKind::ApiSocketInUse => Some(ErrorResponseView::Conflict(failure.subject)),
        FailureKind::ProjectDirAlreadyBound => Some(ErrorResponseView::Conflict(failure.subject)),
        FailureKind::NameInUse => Some(ErrorResponseView::Conflict(failure.subject)),
        FailureKind::IdInUse => Some(ErrorResponseView::Conflict(failure.subject)),
        FailureKind::PrivilegeRequired => Some(ErrorResponseView::Unauthorized(failure.subject)),
        _ => None,
    }
}

impl ErrorResponse {
    /// The HTTP status that goes with this refusal.
    pub fn status(&self) -> (code: u16)
        ensures
            code == status_of(*self),
    {
        match self {
            ErrorResponse::NotFound(_) => 404,
            ErrorResponse::Conflict(_) => 409,
            ErrorResponse::Unauthorized(_) => 401,
        }
    }

    /// The refusal that a failure is answered with, if it is answered
    /// with one.
    pub fn refusal(failure: &Failure) -> (r: Option<ErrorResponse>)
        ensures
            r.deep_view() == refusal_of(failure@),
    {
        match failure.kind {
            FailureKind::VmNotFound => Some(ErrorResponse::NotFound(failure.subject.clone())),
            FailureKind::TapInUse => Some(ErrorResponse::Conflict(failure.subject.clone())),
            FailureKind::MacInUse => Some(ErrorResponse::Conflict(failure.subject.clone())),
            FailureKind::ApiSocketInUse => Some(ErrorResponse::Conflict(failure.subject.clone())),
            FailureKind::ProjectDirAlreadyBound => Some(
                ErrorResponse::Conflict(failure.subject.clone()),
            ),
            FailureKind::NameInUse => Some(ErrorResponse::Conflict(failure.subject.clone())),
            FailureKind::IdInUse => Some(ErrorResponse::Conflict(failure.subject.clone())),
            FailureKind::PrivilegeRequired => Some(
                ErrorResponse::Unauthorized(failure.subject.clone()),
            ),
            _ => None,
        }
    }
}

} // verus!
