//! The ownership guard: the one check that stands before every mutation.

use vstd::prelude::*;
use uuid::Uuid;
use crate::error::{result_view, ServiceError, ServiceErrorView};
use crate::identity::same_id;
use crate::topic::{Topic, TopicView};

verus! {

/// Whether `topic` is the topic that `caller` asked for under `topic_id`:
/// it carries that identifier and `caller` owns it.
pub open spec fn admits(caller: Uuid, topic_id: Uuid, topic: TopicView) -> bool {
    topic.owner_id == caller && topic.id == topic_id
}

/// The guard's verdict on what an owner-scoped lookup handed back. A miss and
/// a topic of someone else give the same failure.
pub open spec fn guarded(caller: Uuid, topic_id: Uuid, found: Option<TopicView>) -> Result<
    TopicView,
    ServiceErrorView,
> {
    match found {
        Some(topic) => if admits(caller, topic_id, topic) {
            Ok(topic)
        } else {
            Err(ServiceErrorView::NotFoundOrDenied)
        },
        None => Err(ServiceErrorView::NotFoundOrDenied),
    }
}

/// Lets a looked-up topic through only if it is the requested one and the
/// caller owns it; every other outcome is `NotFoundOrDenied`.
pub fn ownership_guard(caller: Uuid, topic_id: Uuid, found: Option<Topic>) -> (verdict: Result<
    Topic,
    ServiceError,
>)
    ensures
        result_view(verdict) == guarded(caller, topic_id, found.deep_view()),
        verdict matches Ok(topic) ==> found == Some(topic),
{
    match found {
        Some(topic) => {
            if same_id(&topic.owner_id, &caller) && same_id(&topic.id, &topic_id) {
                Ok(topic)
            } else {
                Err(ServiceError::NotFoundOrDenied)
            }
        },
        None => Err(ServiceError::NotFoundOrDenied),
    }
}

} // verus!
