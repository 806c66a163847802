//! What can go wrong, as callers are told of it.

use vstd::prelude::*;

verus! {

/// A failure.
#[derive(Debug)]
pub enum AppError {
    /// The request cannot be served as it is.
    BadRequest(String),
    /// The caller is not known, and why.
    UnauthorizedWith(String),
    /// The caller may not do this.
    Forbidden(String),
    /// There is no such thing.
    NotFound(String),
    /// The service itself failed.
    Internal(String),
    /// Kick did not do what was asked of it.
    KickApi(String),
    /// The caller asks too often.
    RateLimited { retry_after: u64 },
    /// The role link is gone upstream.
    RoleLinkNotFound,
    /// The role link is switched off upstream.
    RoleLinkDisabled,
    /// The role link holds as many users as it may.
    UserLimitReached { limit: u64 },
}

/// What a failure is.
pub enum ErrorView {
    BadRequest(Seq<char>),
    UnauthorizedWith(Seq<char>),
    Forbidden(Seq<char>),
    NotFound(Seq<char>),
    Internal(Seq<char>),
    KickApi(Seq<char>),
    RateLimited { retry_after: u64 },
    RoleLinkNotFound,
    RoleLinkDisabled,
    UserLimitReached { limit: u64 },
}

impl View for AppError {
    type V = ErrorView;

    open spec fn view(&self) -> ErrorView {
        match *self {
            AppError::BadRequest(s) => ErrorView::BadRequest(s@),
            AppError::UnauthorizedWith(s) => ErrorView::UnauthorizedWith(s@),
            AppError::Forbidden(s) => ErrorView::Forbidden(s@),
            AppError::NotFound(s) => ErrorView::NotFound(s@),
            AppError::Internal(s) => ErrorView::Internal(s@),
            AppError::KickApi(s) => ErrorView::KickApi(s@),
            AppError::RateLimited { retry_after } => ErrorView::RateLimited { retry_after },
            AppError::RoleLinkNotFound => ErrorView::RoleLinkNotFound,
            AppError::RoleLinkDisabled => ErrorView::RoleLinkDisabled,
            AppError::UserLimitReached { limit } => ErrorView::UserLimitReached { limit },
        }
    }
}

} // verus!
