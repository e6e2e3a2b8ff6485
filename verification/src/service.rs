//! The four topic operations.
//!
//! An operation never calls the resolver or the datastore itself. It starts
//! from the request and the caller's identity and yields a stage: a value
//! that says which call is due. The caller makes that call and hands the
//! answer to the stage, which yields the next stage or the operation's
//! result. A stage can only be obtained from the step before it, so a
//! mutation can only be asked for after the ownership guard let it through.

use vstd::prelude::*;
use uuid::Uuid;
use crate::error::{result_view, ServiceError, ServiceErrorView};
use crate::guard::{guarded, ownership_guard};
use crate::store::Write;
use crate::topic::{Topic, TopicView};

verus! {

/// The request to create a topic.
#[derive(Debug)]
pub struct CreateTopicData {
    /// The raw string that the resolver turns into the topic's resolution.
    pub resolution: String,
    /// Optional flag stored with the topic.
    pub normal_chat: Option<bool>,
}

/// The request to delete a topic.
#[derive(Debug)]
pub struct DeleteTopicData {
    /// The topic to delete.
    pub topic_id: Uuid,
}

/// The request to update a topic.
#[derive(Debug)]
pub struct UpdateTopicData {
    /// The topic to update.
    pub topic_id: Uuid,
    /// The topic's new resolution.
    pub resolution: String,
    /// The topic's new `side` flag.
    pub side: bool,
}

/// Whether a resolution string may enter an operation: it is not empty.
pub open spec fn acceptable(resolution: Seq<char>) -> bool {
    resolution.len() > 0
}

/// What a write's answer makes of an operation that would give `value`:
/// `value` if the datastore wrote, its message as a `StoreError` if not.
pub open spec fn written<T>(value: T, answer: Result<(), Seq<char>>) -> Result<T, ServiceErrorView> {
    match answer {
        Ok(_) => Ok(value),
        Err(reason) => Err(ServiceErrorView::StoreError(reason)),
    }
}

// ---------------------------------------------------------------- create

/// A creation that passed validation: the resolver is due, on `raw`.
#[derive(Debug)]
pub struct CreateResolving {
    raw: String,
    owner_id: Uuid,
    normal_chat: Option<bool>,
}

/// The mathematical value of a [`CreateResolving`].
pub ghost struct CreateResolvingView {
    pub raw: Seq<char>,
    pub owner_id: Uuid,
    pub normal_chat: Option<bool>,
}

impl View for CreateResolving {
    type V = CreateResolvingView;

    closed spec fn view(&self) -> CreateResolvingView {
        CreateResolvingView { raw: self.raw@, owner_id: self.owner_id, normal_chat: self.normal_chat }
    }
}

impl CreateResolvingView {
    /// The first step of a creation: an empty resolution ends it, any other
    /// asks for the resolver.
    pub open spec fn begin(resolution: Seq<char>, normal_chat: Option<bool>, user: Uuid) -> Result<
        CreateResolvingView,
        ServiceErrorView,
    > {
        if acceptable(resolution) {
            Ok(CreateResolvingView { raw: resolution, owner_id: user, normal_chat })
        } else {
            Err(ServiceErrorView::ValidationError)
        }
    }

    /// The step after the resolver answered, with `id` as the identifier
    /// drawn for the new topic: the topic to persist, or the resolver's
    /// failure.
    pub open spec fn resolved(self, answer: Result<Seq<char>, Seq<char>>, id: Uuid) -> Result<
        TopicView,
        ServiceErrorView,
    > {
        match answer {
            Ok(resolution) => Ok(TopicView::created(id, resolution, self.owner_id, self.normal_chat)),
            Err(reason) => Err(ServiceErrorView::UpstreamError(reason)),
        }
    }
}

/// A creation whose topic is built: the datastore's create is due, on
/// `topic`.
#[derive(Debug)]
pub struct CreatePersisting {
    topic: Topic,
}

impl View for CreatePersisting {
    type V = TopicView;

    closed spec fn view(&self) -> TopicView {
        self.topic@
    }
}

/// The write that a [`CreatePersisting`] with view `topic` asks for.
pub open spec fn creation_of(topic: TopicView) -> Write {
    Write::Create { topic }
}

/// Starts the creation of a topic for `user`.
///
/// An empty resolution fails with `ValidationError` and yields no stage, so
/// neither the resolver nor the datastore is asked anything. Every other
/// request yields the stage that waits for the resolver.
pub fn create_topic(data: CreateTopicData, user: Uuid) -> (step: Result<CreateResolving, ServiceError>)
    ensures
        result_view(step) == CreateResolvingView::begin(data.resolution@, data.normal_chat, user),
{
    if data.resolution.as_str().is_empty() {
        return Err(ServiceError::ValidationError);
    }
    Ok(CreateResolving { raw: data.resolution, owner_id: user, normal_chat: data.normal_chat })
}

impl CreateResolving {
    /// The raw string to hand to the resolver.
    pub fn raw(&self) -> (raw: &String)
        ensures
            raw@ == self@.raw,
    {
        &self.raw
    }

    /// Takes the resolver's answer, with the identifier of the new topic
    /// given by the caller.
    pub fn resolved_with_id(self, answer: Result<String, String>, id: Uuid) -> (step: Result<
        CreatePersisting,
        ServiceError,
    >)
        ensures
            result_view(step) == self@.resolved(result_view(answer), id),
    {
        match answer {
            Ok(resolution) => Ok(
                CreatePersisting {
                    topic: Topic::with_id(id, resolution, self.owner_id, self.normal_chat),
                },
            ),
            Err(reason) => Err(ServiceError::UpstreamError(reason)),
        }
    }

    /// Takes the resolver's answer. A failure of the resolver ends the
    /// creation with `UpstreamError` and the resolver's message. Otherwise a
    /// fresh identifier is drawn and the topic is built from it, the caller,
    /// the resolved string and the request's flag.
    pub fn resolved(self, answer: Result<String, String>) -> (step: Result<
        CreatePersisting,
        ServiceError,
    >)
        ensures
            match step {
                Ok(next) => result_view(step) == self@.resolved(result_view(answer), next@.id),
                Err(error) => answer matches Err(reason) && error@
                    == ServiceErrorView::UpstreamError(reason@),
            },
    {
        match answer {
            Ok(resolution) => Ok(
                CreatePersisting {
                    topic: Topic::from_details(resolution, self.owner_id, self.normal_chat),
                },
            ),
            Err(reason) => Err(ServiceError::UpstreamError(reason)),
        }
    }
}

impl CreatePersisting {
    /// The topic to hand to the datastore's create.
    pub fn topic(&self) -> (topic: &Topic)
        ensures
            topic@ == self@,
    {
        &self.topic
    }

    /// Takes the datastore's answer to the create. On success the result is
    /// the topic that was built, not one read back; on failure it is a
    /// `StoreError` with the datastore's message.
    pub fn persisted(self, answer: Result<(), String>) -> (outcome: Result<Topic, ServiceError>)
        ensures
            result_view(outcome) == written(self@, result_view(answer)),
    {
        match answer {
            Ok(_) => Ok(self.topic),
            Err(reason) => Err(ServiceError::StoreError(reason)),
        }
    }
}

// ---------------------------------------------------------------- delete

/// A deletion at its start: the owner-scoped lookup is due, for the topic
/// `topic_id` among those of `owner_id`.
#[derive(Debug)]
pub struct DeleteLookup {
    owner_id: Uuid,
    topic_id: Uuid,
}

/// The mathematical value of a [`DeleteLookup`].
pub ghost struct DeleteLookupView {
    pub owner_id: Uuid,
    pub topic_id: Uuid,
}

impl View for DeleteLookup {
    type V = DeleteLookupView;

    closed spec fn view(&self) -> DeleteLookupView {
        DeleteLookupView { owner_id: self.owner_id, topic_id: self.topic_id }
    }
}

impl DeleteLookupView {
    /// The step after the lookup answered: the deletion goes on, keyed by
    /// the identifier of the topic that was found, only if the guard lets
    /// that topic through.
    pub open spec fn looked_up(self, found: Option<TopicView>) -> Result<
        DeletePendingView,
        ServiceErrorView,
    > {
        match guarded(self.owner_id, self.topic_id, found) {
            Ok(topic) => Ok(DeletePendingView { topic_id: topic.id }),
            Err(error) => Err(error),
        }
    }
}

/// A deletion that the guard let through: the datastore's delete is due, on
/// `topic_id`.
#[derive(Debug)]
pub struct DeletePending {
    topic_id: Uuid,
}

/// The mathematical value of a [`DeletePending`].
pub ghost struct DeletePendingView {
    pub topic_id: Uuid,
}

impl View for DeletePending {
    type V = DeletePendingView;

    closed spec fn view(&self) -> DeletePendingView {
        DeletePendingView { topic_id: self.topic_id }
    }
}

impl DeletePendingView {
    /// The write that this stage asks for.
    pub open spec fn write(self) -> Write {
        Write::Delete { topic_id: self.topic_id }
    }
}

/// Starts the deletion of a topic on behalf of `user`: yields the stage that
/// waits for the owner-scoped lookup.
pub fn delete_topic(data: DeleteTopicData, user: Uuid) -> (step: DeleteLookup)
    ensures
        step@ == (DeleteLookupView { owner_id: user, topic_id: data.topic_id }),
{
    DeleteLookup { owner_id: user, topic_id: data.topic_id }
}

impl DeleteLookup {
    /// The owner to scope the lookup by.
    pub fn owner_id(&self) -> (id: Uuid)
        ensures
            id == self@.owner_id,
    {
        self.owner_id
    }

    /// The topic to look up.
    pub fn topic_id(&self) -> (id: Uuid)
        ensures
            id == self@.topic_id,
    {
        self.topic_id
    }

    /// Takes the lookup's answer through the ownership guard. Unless the
    /// topic found is the requested one and belongs to the caller, the
    /// deletion ends with `NotFoundOrDenied` and no delete is ever asked for.
    pub fn looked_up(self, found: Option<Topic>) -> (step: Result<DeletePending, ServiceError>)
        ensures
            result_view(step) == self@.looked_up(found.deep_view()),
    {
        match ownership_guard(self.owner_id, self.topic_id, found) {
            Ok(topic) => Ok(DeletePending { topic_id: topic.id }),
            Err(error) => Err(error),
        }
    }
}

impl DeletePending {
    /// The topic to hand to the datastore's delete.
    pub fn topic_id(&self) -> (id: Uuid)
        ensures
            id == self@.topic_id,
    {
        self.topic_id
    }

    /// Takes the datastore's answer to the delete: success carries no
    /// payload, failure is a `StoreError` with the datastore's message.
    pub fn deleted(self, answer: Result<(), String>) -> (outcome: Result<(), ServiceError>)
        ensures
            result_view(outcome) == written((), result_view(answer)),
    {
        match answer {
            Ok(_) => Ok(()),
            Err(reason) => Err(ServiceError::StoreError(reason)),
        }
    }
}

// ---------------------------------------------------------------- update

/// An update that passed validation: the owner-scoped lookup is due, for the
/// topic `topic_id` among those of `owner_id`.
#[derive(Debug)]
pub struct UpdateLookup {
    owner_id: Uuid,
    topic_id: Uuid,
    resolution: String,
    side: bool,
}

/// The mathematical value of an [`UpdateLookup`].
pub ghost struct UpdateLookupView {
    pub owner_id: Uuid,
    pub topic_id: Uuid,
    pub resolution: Seq<char>,
    pub side: bool,
}

impl View for UpdateLookup {
    type V = UpdateLookupView;

    closed spec fn view(&self) -> UpdateLookupView {
        UpdateLookupView {
            owner_id: self.owner_id,
            topic_id: self.topic_id,
            resolution: self.resolution@,
            side: self.side,
        }
    }
}

impl UpdateLookupView {
    /// The first step of an update: an empty resolution ends it, any other
    /// asks for the owner-scoped lookup.
    pub open spec fn begin(topic_id: Uuid, resolution: Seq<char>, side: bool, user: Uuid) -> Result<
        UpdateLookupView,
        ServiceErrorView,
    > {
        if acceptable(resolution) {
            Ok(UpdateLookupView { owner_id: user, topic_id, resolution, side })
        } else {
            Err(ServiceErrorView::ValidationError)
        }
    }

    /// The step after the lookup answered: the update goes on, keyed by the
    /// identifier of the topic that was found and with the request's values,
    /// only if the guard lets that topic through.
    pub open spec fn looked_up(self, found: Option<TopicView>) -> Result<
        UpdatePendingView,
        ServiceErrorView,
    > {
        match guarded(self.owner_id, self.topic_id, found) {
            Ok(topic) => Ok(
                UpdatePendingView { topic_id: topic.id, resolution: self.resolution, side: self.side },
            ),
            Err(error) => Err(error),
        }
    }
}

/// An update that the guard let through: the datastore's update is due, on
/// `topic_id`, with `resolution` and `side`.
#[derive(Debug)]
pub struct UpdatePending {
    topic_id: Uuid,
    resolution: String,
    side: bool,
}

/// The mathematical value of an [`UpdatePending`].
pub ghost struct UpdatePendingView {
    pub topic_id: Uuid,
    pub resolution: Seq<char>,
    pub side: bool,
}

impl View for UpdatePending {
    type V = UpdatePendingView;

    closed spec fn view(&self) -> UpdatePendingView {
        UpdatePendingView { topic_id: self.topic_id, resolution: self.resolution@, side: self.side }
    }
}

impl UpdatePendingView {
    /// The write that this stage asks for.
    pub open spec fn write(self) -> Write {
        Write::Update { topic_id: self.topic_id, resolution: self.resolution, side: self.side }
    }
}

/// Starts the update of a topic on behalf of `user`.
///
/// An empty resolution fails with `ValidationError` and yields no stage, so
/// neither a lookup nor a write is asked for. Every other request yields the
/// stage that waits for the owner-scoped lookup.
pub fn update_topic(data: UpdateTopicData, user: Uuid) -> (step: Result<UpdateLookup, ServiceError>)
    ensures
        result_view(step) == UpdateLookupView::begin(
            data.topic_id,
            data.resolution@,
            data.side,
            user,
        ),
{
    if data.resolution.as_str().is_empty() {
        return Err(ServiceError::ValidationError);
    }
    Ok(
        UpdateLookup {
            owner_id: user,
            topic_id: data.topic_id,
            resolution: data.resolution,
            side: data.side,
        },
    )
}

impl UpdateLookup {
    /// The owner to scope the lookup by.
    pub fn owner_id(&self) -> (id: Uuid)
        ensures
            id == self@.owner_id,
    {
        self.owner_id
    }

    /// The topic to look up.
    pub fn topic_id(&self) -> (id: Uuid)
        ensures
            id == self@.topic_id,
    {
        self.topic_id
    }

    /// Takes the lookup's answer through the ownership guard. Unless the
    /// topic found is the requested one and belongs to the caller, the
    /// update ends with `NotFoundOrDenied` and no write is ever asked for.
    pub fn looked_up(self, found: Option<Topic>) -> (step: Result<UpdatePending, ServiceError>)
        ensures
            result_view(step) == self@.looked_up(found.deep_view()),
    {
        match ownership_guard(self.owner_id, self.topic_id, found) {
            Ok(topic) => Ok(
                UpdatePending { topic_id: topic.id, resolution: self.resolution, side: self.side },
            ),
            Err(error) => Err(error),
        }
    }
}

impl UpdatePending {
    /// The topic to hand to the datastore's update.
    pub fn topic_id(&self) -> (id: Uuid)
        ensures
            id == self@.topic_id,
    {
        self.topic_id
    }

    /// The resolution to write.
    pub fn resolution(&self) -> (resolution: &String)
        ensures
            resolution@ == self@.resolution,
    {
        &self.resolution
    }

    /// The `side` flag to write.
    pub fn side(&self) -> (side: bool)
        ensures
            side == self@.side,
    {
        self.side
    }

    /// Takes the datastore's answer to the update: success carries no
    /// payload, failure is a `StoreError` with the datastore's message.
    pub fn updated(self, answer: Result<(), String>) -> (outcome: Result<(), ServiceError>)
        ensures
            result_view(outcome) == written((), result_view(answer)),
    {
        match answer {
            Ok(_) => Ok(()),
            Err(reason) => Err(ServiceError::StoreError(reason)),
        }
    }
}

// ------------------------------------------------------------------ list

/// A listing at its start: the datastore's list is due, for the topics of
/// `owner_id`.
#[derive(Debug)]
pub struct ListPending {
    owner_id: Uuid,
}

/// The mathematical value of a [`ListPending`].
pub ghost struct ListPendingView {
    pub owner_id: Uuid,
}

impl View for ListPending {
    type V = ListPendingView;

    closed spec fn view(&self) -> ListPendingView {
        ListPendingView { owner_id: self.owner_id }
    }
}

/// The outcome of a listing: the datastore's topics as they came, or its
/// message as a `StoreError`.
pub open spec fn listed_as(answer: Result<Seq<TopicView>, Seq<char>>) -> Result<
    Seq<TopicView>,
    ServiceErrorView,
> {
    match answer {
        Ok(topics) => Ok(topics),
        Err(reason) => Err(ServiceErrorView::StoreError(reason)),
    }
}

/// The view of what the datastore answers to a list.
pub open spec fn list_view(answer: Result<Vec<Topic>, String>) -> Result<Seq<TopicView>, Seq<char>> {
    match answer {
        Ok(topics) => Ok(topics.deep_view()),
        Err(reason) => Err(reason@),
    }
}

/// The view of a listing's outcome.
pub open spec fn listing_view(outcome: Result<Vec<Topic>, ServiceError>) -> Result<
    Seq<TopicView>,
    ServiceErrorView,
> {
    match outcome {
        Ok(topics) => Ok(topics.deep_view()),
        Err(error) => Err(error@),
    }
}

/// Starts the listing of the topics of `user`: yields the stage that waits
/// for the datastore's list.
pub fn get_all_topics(user: Uuid) -> (step: ListPending)
    ensures
        step@ == (ListPendingView { owner_id: user }),
{
    ListPending { owner_id: user }
}

impl ListPending {
    /// The owner whose topics to list.
    pub fn owner_id(&self) -> (id: Uuid)
        ensures
            id == self@.owner_id,
    {
        self.owner_id
    }

    /// Takes the datastore's answer to the list: the topics in the order the
    /// datastore gave them, or a `StoreError` with the datastore's message.
    pub fn listed(self, answer: Result<Vec<Topic>, String>) -> (outcome: Result<
        Vec<Topic>,
        ServiceError,
    >)
        ensures
            listing_view(outcome) == listed_as(list_view(answer)),
            answer matches Ok(topics) ==> outcome == Ok::<Vec<Topic>, ServiceError>(topics),
    {
        match answer {
            Ok(topics) => Ok(topics),
            Err(reason) => Err(ServiceError::StoreError(reason)),
        }
    }
}

} // verus!
