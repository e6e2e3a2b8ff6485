//! The topic record.

use vstd::prelude::*;
use uuid::Uuid;

verus! {

/// A topic: a resolved conversational context owned by one user.
#[derive(Debug, PartialEq, Eq)]
pub struct Topic {
    /// Unique identifier, generated when the topic is created.
    pub id: Uuid,
    /// The user who created the topic and owns it.
    pub owner_id: Uuid,
    /// The canonical resolution string.
    pub resolution: String,
    /// Optional flag set at creation.
    pub normal_chat: Option<bool>,
    /// Flag that an update may change.
    pub side: bool,
}

/// The mathematical value of a [`Topic`].
pub ghost struct TopicView {
    pub id: Uuid,
    pub owner_id: Uuid,
    pub resolution: Seq<char>,
    pub normal_chat: Option<bool>,
    pub side: bool,
}

impl View for Topic {
    type V = TopicView;

    open spec fn view(&self) -> TopicView {
        TopicView {
            id: self.id,
            owner_id: self.owner_id,
            resolution: self.resolution@,
            normal_chat: self.normal_chat,
            side: self.side,
        }
    }
}

impl DeepView for Topic {
    type V = TopicView;

    open spec fn deep_view(&self) -> TopicView {
        self@
    }
}

impl Clone for Topic {
    fn clone(&self) -> (copy: Topic)
        ensures
            copy@ == self@,
    {
        Topic {
            id: self.id,
            owner_id: self.owner_id,
            resolution: self.resolution.clone(),
            normal_chat: self.normal_chat,
            side: self.side,
        }
    }
}

impl TopicView {
    /// A topic that may be persisted has a non-empty resolution.
    pub open spec fn wf(self) -> bool {
        self.resolution.len() > 0
    }

    /// The topic that a creation by `owner_id` builds once the identifier
    /// `id` has been drawn.
    pub open spec fn created(
        id: Uuid,
        resolution: Seq<char>,
        owner_id: Uuid,
        normal_chat: Option<bool>,
    ) -> TopicView {
        TopicView { id, owner_id, resolution, normal_chat, side: false }
    }
}

impl Topic {
    /// Builds the topic of a creation with a given identifier.
    pub fn with_id(id: Uuid, resolution: String, owner_id: Uuid, normal_chat: Option<bool>) -> (topic: Topic)
        ensures
            topic@ == TopicView::created(id, resolution@, owner_id, normal_chat),
    {
        Topic { id, owner_id, resolution, normal_chat, side: false }
    }

    /// Builds the topic of a creation under a freshly drawn identifier.
    pub fn from_details(resolution: String, owner_id: Uuid, normal_chat: Option<bool>) -> (topic: Topic)
        ensures
            topic@ == TopicView::created(topic@.id, resolution@, owner_id, normal_chat),
    {
        let id = Uuid::new_v4();
        Topic::with_id(id, resolution, owner_id, normal_chat)
    }
}

} // verus!
