//! The errors that the gateway answers with.

use vstd::prelude::*;

use crate::json::{Json, Object};
#[allow(unused_imports)]
use crate::json::JsonView;

verus! {

/// The HTTP status of an error answer.
#[derive(Debug, Clone, Copy, PartialEq, Eq, Structural)]
pub enum Status {
    BadRequest,
    Unauthorized,
    NotFound,
    InternalServerError,
    ServiceUnavailable,
}

impl Status {
    /// The number of the status.
    pub open spec fn number(self) -> u16 {
        match self {
            Status::BadRequest => 400,
            Status::Unauthorized => 401,
            Status::NotFound => 404,
            Status::InternalServerError => 500,
            Status::ServiceUnavailable => 503,
        }
    }

    /// The number of the status.
    pub fn code(&self) -> (code: u16)
        ensures
            code == self.number(),
    {
        match self {
            Status::BadRequest => 400,
            Status::Unauthorized => 401,
            Status::NotFound => 404,
            Status::InternalServerError => 500,
            Status::ServiceUnavailable => 503,
        }
    }
}

/// An error answer: its status and what it says.
#[derive(Debug)]
pub struct ApiError {
    pub status: Status,
    pub detail: String,
}

/// What an [`ApiError`] is.
pub struct ApiErrorView {
    pub status: Status,
    pub detail: Seq<char>,
}

impl View for ApiError {
    type V = ApiErrorView;

    open spec fn view(&self) -> ApiErrorView {
        ApiErrorView { status: self.status, detail: self.detail@ }
    }
}

impl ApiError {
    pub fn new(status: Status, detail: &str) -> (error: ApiError)
        ensures
            error@ == (ApiErrorView { status, detail: detail@ }),
    {
        ApiError { status, detail: detail.to_string() }
    }

    pub fn bad_request(detail: &str) -> (error: ApiError)
        ensures
            error@ == (ApiErrorView { status: Status::BadRequest, detail: detail@ }),
    {
        ApiError::new(Status::BadRequest, detail)
    }

    pub fn unauthorized(detail: &str) -> (error: ApiError)
        ensures
            error@ == (ApiErrorView { status: Status::Unauthorized, detail: detail@ }),
    {
        ApiError::new(Status::Unauthorized, detail)
    }

    pub fn not_found(detail: &str) -> (error: ApiError)
        ensures
            error@ == (ApiErrorView { status: Status::NotFound, detail: detail@ }),
    {
        ApiError::new(Status::NotFound, detail)
    }

    pub fn service_unavailable(detail: &str) -> (error: ApiError)
        ensures
            error@ == (ApiErrorView { status: Status::ServiceUnavailable, detail: detail@ }),
    {
        ApiError::new(Status::ServiceUnavailable, detail)
    }

    pub fn internal(detail: &str) -> (error: ApiError)
        ensures
            error@ == (ApiErrorView { status: Status::InternalServerError, detail: detail@ }),
    {
        ApiError::new(Status::InternalServerError, detail)
    }

    /// The status number and the body of the answer.
    pub fn into_response(self) -> (response: (u16, Json))
        ensures
            response.0 == self.status.number(),
            response.1@ == JsonView::Object(map!["detail"@ => JsonView::text(self.detail@)]),
    {
        let mut body = Object::new();
        body.put("detail", Json::text(self.detail.as_str()));
        (self.status.code(), Json::Object(body))
    }
}

} // verus!
