//! Failures of the topic operations, and the text that each shows a client.

use vstd::prelude::*;
use vstd::string::StringExecFns;

verus! {

/// Why a topic operation failed.
#[derive(Debug, PartialEq, Eq)]
pub enum ServiceError {
    /// The resolution string of the request was empty.
    ValidationError,
    /// The resolver failed; holds the resolver's message.
    UpstreamError(String),
    /// The caller owns no topic with the requested identifier. Whether such
    /// a topic exists for someone else is deliberately not told apart.
    NotFoundOrDenied,
    /// The datastore failed; holds the datastore's message.
    StoreError(String),
}

/// The mathematical value of a [`ServiceError`].
pub ghost enum ServiceErrorView {
    ValidationError,
    UpstreamError(Seq<char>),
    NotFoundOrDenied,
    StoreError(Seq<char>),
}

impl View for ServiceError {
    type V = ServiceErrorView;

    open spec fn view(&self) -> ServiceErrorView {
        match self {
            ServiceError::ValidationError => ServiceErrorView::ValidationError,
            ServiceError::UpstreamError(reason) => ServiceErrorView::UpstreamError(reason@),
            ServiceError::NotFoundOrDenied => ServiceErrorView::NotFoundOrDenied,
            ServiceError::StoreError(reason) => ServiceErrorView::StoreError(reason@),
        }
    }
}

impl ServiceErrorView {
    /// The text shown to the client for this failure.
    pub open spec fn message(self) -> Seq<char> {
        match self {
            ServiceErrorView::ValidationError => "Resolution must not be empty"@,
            ServiceErrorView::UpstreamError(reason) => "Error getting topic string: "@ + reason,
            ServiceErrorView::NotFoundOrDenied => "This topic does not exist for the authenticated user"@,
            ServiceErrorView::StoreError(reason) => reason,
        }
    }
}

impl ServiceError {
    /// The text shown to the client for this failure.
    pub fn message(&self) -> (text: String)
        ensures
            text@ == self@.message(),
    {
        match self {
            ServiceError::ValidationError => String::from_str("Resolution must not be empty"),
            ServiceError::UpstreamError(reason) => {
                String::from_str("Error getting topic string: ").concat(reason.as_str())
            },
            ServiceError::NotFoundOrDenied => {
                String::from_str("This topic does not exist for the authenticated user")
            },
            ServiceError::StoreError(reason) => reason.clone(),
        }
    }
}

/// The view of a result whose two sides both have a view.
pub open spec fn result_view<T: View, E: View>(r: Result<T, E>) -> Result<T::V, E::V> {
    match r {
        Ok(value) => Ok(value@),
        Err(error) => Err(error@),
    }
}

} // verus!
