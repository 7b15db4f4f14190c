//! Requests and replies as plain values. The clients build requests and
//! read replies; sending is left to whoever drives them.

use crate::error::{ApiError, ApiErrorView, ApiOperation};
use crate::json::{json_document, json_nodes, json_parse, JsonNode, JsonStep};
use vstd::prelude::*;

verus! {

#[derive(Clone, Copy, Debug, PartialEq, Eq, Structural)]
pub enum HttpMethod {
    Get,
    Post,
    Put,
    Delete,
}

/// One request to a service, authorised by a bearer token.
#[derive(Clone, Debug)]
pub struct HttpRequest {
    pub method: HttpMethod,
    pub url: String,
    pub bearer_token: String,
    /// The `User-Agent` to send, where the service asks for one.
    pub user_agent: Option<String>,
    /// The JSON document to send, where the request has one.
    pub body: Option<String>,
}

/// Mathematical content of an [`HttpRequest`].
pub struct HttpRequestView {
    pub method: HttpMethod,
    pub url: Seq<char>,
    pub bearer_token: Seq<char>,
    pub user_agent: Option<Seq<char>>,
    pub body: Option<Seq<char>>,
}

impl View for HttpRequest {
    type V = HttpRequestView;

    open spec fn view(&self) -> HttpRequestView {
        HttpRequestView {
            method: self.method,
            url: self.url@,
            bearer_token: self.bearer_token@,
            user_agent: self.user_agent.deep_view(),
            body: self.body.deep_view(),
        }
    }
}

/// How a request ended: with a reply, or without one.
#[derive(Clone, Debug)]
pub enum HttpOutcome {
    /// The service replied. `body` is `None` where the body could not be
    /// read as text.
    Reply { status: u16, body: Option<String> },
    /// No reply came.
    Failed { detail: String },
}

/// Mathematical content of an [`HttpOutcome`].
pub enum HttpOutcomeView {
    Reply { status: u16, body: Option<Seq<char>> },
    Failed { detail: Seq<char> },
}

impl View for HttpOutcome {
    type V = HttpOutcomeView;

    open spec fn view(&self) -> HttpOutcomeView {
        match self {
            HttpOutcome::Reply { status, body } => HttpOutcomeView::Reply {
                status: *status,
                body: body.deep_view(),
            },
            HttpOutcome::Failed { detail } => HttpOutcomeView::Failed { detail: detail@ },
        }
    }
}

/// The statuses that mean success: 200 to 299.
pub open spec fn is_success(status: u16) -> bool {
    200 <= status <= 299
}

/// Tells whether a status means success.
pub fn status_is_success(status: u16) -> (r: bool)
    ensures
        r == is_success(status),
{
    200 <= status && status <= 299
}

/// What a reply says where only its status counts: a missing reply and a
/// status outside the success range are errors of the operation.
pub open spec fn reply_accepted(op: ApiOperation, outcome: HttpOutcomeView) -> Result<
    (),
    ApiErrorView,
> {
    match outcome {
        HttpOutcomeView::Failed { detail } => Err(
            ApiErrorView::Transport { operation: op, detail },
        ),
        HttpOutcomeView::Reply { status, body } => if is_success(status) {
            Ok(())
        } else {
            Err(ApiErrorView::RemoteApiError { operation: op, status_code: status })
        },
    }
}

/// The document of a body, where the body was read and is JSON.
pub open spec fn body_document(op: ApiOperation, body: Option<Seq<char>>) -> Result<
    Map<Seq<JsonStep>, JsonNode>,
    ApiErrorView,
> {
    match body {
        None => Err(ApiErrorView::MalformedReply { operation: op }),
        Some(text) => match json_document(text) {
            None => Err(ApiErrorView::MalformedReply { operation: op }),
            Some(doc) => Ok(doc),
        },
    }
}

/// The document that a reply carries: as [`reply_accepted`], and the body
/// of an accepted reply must be a JSON document.
pub open spec fn reply_document(op: ApiOperation, outcome: HttpOutcomeView) -> Result<
    Map<Seq<JsonStep>, JsonNode>,
    ApiErrorView,
> {
    match outcome {
        HttpOutcomeView::Failed { detail } => Err(
            ApiErrorView::Transport { operation: op, detail },
        ),
        HttpOutcomeView::Reply { status, body } => if is_success(status) {
            body_document(op, body)
        } else {
            Err(ApiErrorView::RemoteApiError { operation: op, status_code: status })
        },
    }
}

/// Reads the status of a reply.
pub fn accept_reply(op: ApiOperation, outcome: &HttpOutcome) -> (r: Result<(), ApiError>)
    ensures
        match r {
            Ok(_) => reply_accepted(op, outcome@) == Ok::<(), ApiErrorView>(()),
            Err(e) => reply_accepted(op, outcome@) == Err::<(), ApiErrorView>(e@),
        },
{
    match outcome {
        HttpOutcome::Failed { detail } => Err(
            ApiError::Transport { operation: op, detail: detail.clone() },
        ),
        HttpOutcome::Reply { status, body } => {
            if status_is_success(*status) {
                Ok(())
            } else {
                Err(ApiError::RemoteApiError { operation: op, status_code: *status })
            }
        },
    }
}

/// Parses a body that was read.
pub(crate) fn parse_body(op: ApiOperation, body: &Option<String>) -> (r: Result<
    serde_json::Value,
    ApiError,
>)
    ensures
        match r {
            Ok(v) => body_document(op, body.deep_view()) == Ok::<
                Map<Seq<JsonStep>, JsonNode>,
                ApiErrorView,
            >(json_nodes(v)),
            Err(e) => body_document(op, body.deep_view()) == Err::<
                Map<Seq<JsonStep>, JsonNode>,
                ApiErrorView,
            >(e@),
        },
{
    match body {
        None => Err(ApiError::MalformedReply { operation: op }),
        Some(text) => match json_parse(text.as_str()) {
            Ok(v) => Ok(v),
            Err(_) => Err(ApiError::MalformedReply { operation: op }),
        },
    }
}

/// Reads the document of a reply.
pub(crate) fn read_reply(op: ApiOperation, outcome: &HttpOutcome) -> (r: Result<
    serde_json::Value,
    ApiError,
>)
    ensures
        match r {
            Ok(v) => reply_document(op, outcome@) == Ok::<
                Map<Seq<JsonStep>, JsonNode>,
                ApiErrorView,
            >(json_nodes(v)),
            Err(e) => reply_document(op, outcome@) == Err::<
                Map<Seq<JsonStep>, JsonNode>,
                ApiErrorView,
            >(e@),
        },
{
    match outcome {
        HttpOutcome::Failed { detail } => Err(
            ApiError::Transport { operation: op, detail: detail.clone() },
        ),
        HttpOutcome::Reply { status, body } => {
            if status_is_success(*status) {
                parse_body(op, body)
            } else {
                Err(ApiError::RemoteApiError { operation: op, status_code: *status })
            }
        },
    }
}

} // verus!
