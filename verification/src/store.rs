//! What the operations expect of the datastore, as a mathematical model.
//!
//! The datastore itself lies outside this crate. The model says what its
//! calls mean: which topics it holds, what a write does to them, and which
//! answers an honest datastore can give. The laws of the operations are
//! stated against it.

use vstd::prelude::*;
use uuid::Uuid;
use crate::topic::TopicView;

verus! {

/// A write that an operation asks of the datastore.
pub ghost enum Write {
    /// Store a new topic.
    Create { topic: TopicView },
    /// Set `resolution` and `side` of the topic `topic_id`.
    Update { topic_id: Uuid, resolution: Seq<char>, side: bool },
    /// Remove the topic `topic_id`.
    Delete { topic_id: Uuid },
}

/// The datastore's contents.
pub ghost struct StoreModel {
    /// The topics that are stored now, by identifier.
    pub topics: Map<Uuid, TopicView>,
    /// The owner of every identifier that was ever stored, deleted topics
    /// included: an identifier is drawn once and never used again.
    pub owners: Map<Uuid, Uuid>,
}

impl StoreModel {
    /// Every stored topic sits under its own identifier and is recorded
    /// under its owner.
    pub open spec fn wf(self) -> bool {
        forall|id: Uuid| #[trigger]
            self.topics.contains_key(id) ==> self.topics[id].id == id && self.owners.contains_key(
                id,
            ) && self.owners[id] == self.topics[id].owner_id
    }

    /// Whether `topic` is stored as it stands.
    pub open spec fn holds(self, topic: TopicView) -> bool {
        self.topics.contains_key(topic.id) && self.topics[topic.id] == topic
    }

    /// The topics of `owner`.
    pub open spec fn owned_by(self, owner: Uuid) -> Set<TopicView> {
        Set::new(|topic: TopicView| self.holds(topic) && topic.owner_id == owner)
    }

    /// The owner-scoped lookup: the topic `topic_id` if `owner` owns it.
    pub open spec fn get_for_owner(self, owner: Uuid, topic_id: Uuid) -> Option<TopicView> {
        if self.topics.contains_key(topic_id) && self.topics[topic_id].owner_id == owner {
            Some(self.topics[topic_id])
        } else {
            None
        }
    }

    /// Whether `found` can be an honest answer to a lookup: the datastore
    /// may miss, but a topic that it hands back is stored as it stands.
    pub open spec fn finds(self, found: Option<TopicView>) -> bool {
        found matches Some(topic) ==> self.holds(topic)
    }

    /// Whether `topics` is an honest answer to the list for `owner`: each
    /// topic of `owner` once, in any order, and nothing else.
    pub open spec fn lists(self, owner: Uuid, topics: Seq<TopicView>) -> bool {
        topics.no_duplicates() && topics.to_set() == self.owned_by(owner)
    }

    /// Whether the datastore can carry out `write`. A topic can only be
    /// created under an identifier that was never used.
    pub open spec fn accepts(self, write: Write) -> bool {
        match write {
            Write::Create { topic } => !self.owners.contains_key(topic.id),
            Write::Update { .. } => true,
            Write::Delete { .. } => true,
        }
    }

    /// The contents after `write` was carried out. An update touches the
    /// resolution and `side` of one topic and nothing else; an update or a
    /// delete of a topic that is not stored changes nothing.
    pub open spec fn apply(self, write: Write) -> StoreModel {
        match write {
            Write::Create { topic } => StoreModel {
                topics: self.topics.insert(topic.id, topic),
                owners: self.owners.insert(topic.id, topic.owner_id),
            },
            Write::Update { topic_id, resolution, side } => if self.topics.contains_key(topic_id) {
                StoreModel {
                    topics: self.topics.insert(
                        topic_id,
                        TopicView { resolution, side, ..self.topics[topic_id] },
                    ),
                    owners: self.owners,
                }
            } else {
                self
            },
            Write::Delete { topic_id } => StoreModel {
                topics: self.topics.remove(topic_id),
                owners: self.owners,
            },
        }
    }

    /// Whether `answer` can be an honest answer to `write`: success only
    /// where the write can be carried out.
    pub open spec fn answers(self, write: Write, answer: Result<(), Seq<char>>) -> bool {
        answer is Ok ==> self.accepts(write)
    }

    /// The contents after the datastore answered `answer` to `write`: a
    /// failed write leaves them as they were.
    pub open spec fn after(self, write: Write, answer: Result<(), Seq<char>>) -> StoreModel {
        if answer is Ok {
            self.apply(write)
        } else {
            self
        }
    }

    /// Whether `user` may ask for `write`: a new topic is created under the
    /// user's own name, and an existing identifier is written only by the
    /// user it is recorded under.
    pub open spec fn entitles(self, user: Uuid, write: Write) -> bool {
        match write {
            Write::Create { topic } => topic.owner_id == user,
            Write::Update { topic_id, .. } => self.owners.contains_key(topic_id)
                && self.owners[topic_id] == user,
            Write::Delete { topic_id } => self.owners.contains_key(topic_id) && self.owners[topic_id]
                == user,
        }
    }
}

} // verus!
