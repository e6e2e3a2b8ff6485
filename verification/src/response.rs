//! What an operation shows the client.
//!
//! Inside the crate a failure keeps its kind. At the boundary every kind
//! collapses into one shape, a bad request with a readable message, so that a
//! client learns nothing from the shape of a refusal.

use vstd::prelude::*;
use crate::error::{result_view, ServiceError, ServiceErrorView};
use crate::service::listing_view;
use crate::topic::{Topic, TopicView};

verus! {

/// The response to a topic operation.
#[derive(Debug, PartialEq, Eq)]
pub enum Response {
    /// The topic that was created.
    Created(Topic),
    /// The topics of the caller.
    Topics(Vec<Topic>),
    /// Success without a payload.
    NoContent,
    /// The one shape of every failure, with its message.
    BadRequest(String),
}

/// The mathematical value of a [`Response`].
pub ghost enum ResponseView {
    Created(TopicView),
    Topics(Seq<TopicView>),
    NoContent,
    BadRequest(Seq<char>),
}

impl View for Response {
    type V = ResponseView;

    open spec fn view(&self) -> ResponseView {
        match self {
            Response::Created(topic) => ResponseView::Created(topic@),
            Response::Topics(topics) => ResponseView::Topics(topics.deep_view()),
            Response::NoContent => ResponseView::NoContent,
            Response::BadRequest(message) => ResponseView::BadRequest(message@),
        }
    }
}

impl ResponseView {
    /// The response to a failure: a bad request with the failure's message,
    /// whatever its kind.
    pub open spec fn refusal(error: ServiceErrorView) -> ResponseView {
        ResponseView::BadRequest(error.message())
    }

    /// The response to a creation.
    pub open spec fn of_created(outcome: Result<TopicView, ServiceErrorView>) -> ResponseView {
        match outcome {
            Ok(topic) => ResponseView::Created(topic),
            Err(error) => ResponseView::refusal(error),
        }
    }

    /// The response to a deletion or an update.
    pub open spec fn of_written(outcome: Result<(), ServiceErrorView>) -> ResponseView {
        match outcome {
            Ok(_) => ResponseView::NoContent,
            Err(error) => ResponseView::refusal(error),
        }
    }

    /// The response to a listing.
    pub open spec fn of_listed(outcome: Result<Seq<TopicView>, ServiceErrorView>) -> ResponseView {
        match outcome {
            Ok(topics) => ResponseView::Topics(topics),
            Err(error) => ResponseView::refusal(error),
        }
    }

    /// The status code that goes with the response.
    pub open spec fn status(self) -> u16 {
        match self {
            ResponseView::Created(_) => 200,
            ResponseView::Topics(_) => 200,
            ResponseView::NoContent => 204,
            ResponseView::BadRequest(_) => 400,
        }
    }
}

impl Response {
    /// The response to a failure.
    pub fn refusal(error: &ServiceError) -> (response: Response)
        ensures
            response@ == ResponseView::refusal(error@),
    {
        Response::BadRequest(error.message())
    }

    /// The response to a creation: the created topic, or the refusal.
    pub fn created(outcome: Result<Topic, ServiceError>) -> (response: Response)
        ensures
            response@ == ResponseView::of_created(result_view(outcome)),
    {
        match outcome {
            Ok(topic) => Response::Created(topic),
            Err(error) => Response::refusal(&error),
        }
    }

    /// The response to a deletion or an update: no content, or the refusal.
    pub fn written(outcome: Result<(), ServiceError>) -> (response: Response)
        ensures
            response@ == ResponseView::of_written(result_view(outcome)),
    {
        match outcome {
            Ok(_) => Response::NoContent,
            Err(error) => Response::refusal(&error),
        }
    }

    /// The response to a listing: the topics as listed, or the refusal.
    pub fn listed(outcome: Result<Vec<Topic>, ServiceError>) -> (response: Response)
        ensures
            response@ == ResponseView::of_listed(listing_view(outcome)),
    {
        match outcome {
            Ok(topics) => Response::Topics(topics),
            Err(error) => Response::refusal(&error),
        }
    }

    /// The status code that goes with the response.
    pub fn status(&self) -> (code: u16)
        ensures
            code == self@.status(),
    {
        match self {
            Response::Created(_) => 200,
            Response::Topics(_) => 200,
            Response::NoContent => 204,
            Response::BadRequest(_) => 400,
        }
    }
}

} // verus!
