//! The operations as the datastore sees them, and the laws that hold of them.
//!
//! A run is one operation from its request to its outcome, given every
//! answer that came from outside: it names the write that the operation asks
//! for, if it gets that far, and the outcome that the caller sees. Requests
//! of many users run at once, so the datastore sees their writes in any
//! order; the laws hold of every such order.

use vstd::prelude::*;
use uuid::Uuid;
use crate::error::ServiceErrorView;
use crate::service::{
    acceptable, creation_of, listed_as, written, CreateResolvingView, DeleteLookupView,
    UpdateLookupView,
};
use crate::store::{StoreModel, Write};
use crate::topic::TopicView;

verus! {

/// One operation, run to its end.
pub ghost struct Run<T> {
    /// The write that the operation asked of the datastore, if any.
    pub write: Option<Write>,
    /// What the caller sees.
    pub outcome: Result<T, ServiceErrorView>,
}

/// A creation by `user`: `resolved` is the resolver's answer, `id` the
/// identifier drawn, `answer` the datastore's answer to the create.
pub open spec fn create_run(
    resolution: Seq<char>,
    normal_chat: Option<bool>,
    user: Uuid,
    resolved: Result<Seq<char>, Seq<char>>,
    id: Uuid,
    answer: Result<(), Seq<char>>,
) -> Run<TopicView> {
    match CreateResolvingView::begin(resolution, normal_chat, user) {
        Err(error) => Run { write: None, outcome: Err(error) },
        Ok(resolving) => match resolving.resolved(resolved, id) {
            Err(error) => Run { write: None, outcome: Err(error) },
            Ok(topic) => Run { write: Some(creation_of(topic)), outcome: written(topic, answer) },
        },
    }
}

/// A deletion by `user`: `found` is the lookup's answer, `answer` the
/// datastore's answer to the delete.
pub open spec fn delete_run(
    topic_id: Uuid,
    user: Uuid,
    found: Option<TopicView>,
    answer: Result<(), Seq<char>>,
) -> Run<()> {
    match (DeleteLookupView { owner_id: user, topic_id }).looked_up(found) {
        Err(error) => Run { write: None, outcome: Err(error) },
        Ok(pending) => Run { write: Some(pending.write()), outcome: written((), answer) },
    }
}

/// An update by `user`: `found` is the lookup's answer, `answer` the
/// datastore's answer to the update.
pub open spec fn update_run(
    topic_id: Uuid,
    resolution: Seq<char>,
    side: bool,
    user: Uuid,
    found: Option<TopicView>,
    answer: Result<(), Seq<char>>,
) -> Run<()> {
    match UpdateLookupView::begin(topic_id, resolution, side, user) {
        Err(error) => Run { write: None, outcome: Err(error) },
        Ok(lookup) => match lookup.looked_up(found) {
            Err(error) => Run { write: None, outcome: Err(error) },
            Ok(pending) => Run { write: Some(pending.write()), outcome: written((), answer) },
        },
    }
}

/// One write as the datastore sees it: who asked, for what, and what the
/// datastore answered.
pub ghost struct Step {
    pub user: Uuid,
    pub write: Write,
    pub answer: Result<(), Seq<char>>,
}

impl StoreModel {
    /// The contents after an operation that asked for `write`, if for any,
    /// and got `answer`.
    pub open spec fn settle(self, write: Option<Write>, answer: Result<(), Seq<char>>) -> StoreModel {
        match write {
            Some(write) => self.after(write, answer),
            None => self,
        }
    }

    /// The contents after the writes `steps`, in their order.
    pub open spec fn run(self, steps: Seq<Step>) -> StoreModel
        decreases steps.len(),
    {
        if steps.len() == 0 {
            self
        } else {
            self.run(steps.drop_last()).after(steps.last().write, steps.last().answer)
        }
    }

    /// Whether the datastore answered each of `steps` honestly.
    pub open spec fn honest(self, steps: Seq<Step>) -> bool
        decreases steps.len(),
    {
        if steps.len() == 0 {
            true
        } else {
            self.honest(steps.drop_last()) && self.run(steps.drop_last()).answers(
                steps.last().write,
                steps.last().answer,
            )
        }
    }

    /// Whether each of `steps` was asked for by a user who may, as the
    /// datastore stood when the write reached it. A write that a user might
    /// ask for at the time of the lookup is such a write whenever it arrives
    /// (see `lemma_entitlement_survives`).
    pub open spec fn legitimate(self, steps: Seq<Step>) -> bool
        decreases steps.len(),
    {
        if steps.len() == 0 {
            true
        } else {
            self.legitimate(steps.drop_last()) && self.run(steps.drop_last()).entitles(
                steps.last().user,
                steps.last().write,
            )
        }
    }

    /// Whether every stored topic has a non-empty resolution.
    pub open spec fn resolutions_non_empty(self) -> bool {
        forall|id: Uuid| #[trigger] self.topics.contains_key(id) ==> self.topics[id].wf()
    }
}

/// An empty resolution ends a creation and an update with `ValidationError`
/// before anything is asked of the resolver or the datastore, whatever they
/// would have answered.
pub proof fn lemma_empty_resolution_is_rejected(
    resolution: Seq<char>,
    topic_id: Uuid,
    normal_chat: Option<bool>,
    side: bool,
    user: Uuid,
    resolved: Result<Seq<char>, Seq<char>>,
    id: Uuid,
    found: Option<TopicView>,
    answer: Result<(), Seq<char>>,
)
    requires
        resolution.len() == 0,
    ensures
        CreateResolvingView::begin(resolution, normal_chat, user) is Err,
        UpdateLookupView::begin(topic_id, resolution, side, user) is Err,
        create_run(resolution, normal_chat, user, resolved, id, answer) == (Run::<TopicView> {
            write: None,
            outcome: Err(ServiceErrorView::ValidationError),
        }),
        update_run(topic_id, resolution, side, user, found, answer) == (Run::<()> {
            write: None,
            outcome: Err(ServiceErrorView::ValidationError),
        }),
{
}

/// A user who asks to delete or update a topic of someone else gets
/// `NotFoundOrDenied`, no write is asked for, and the datastore holds the
/// topic as before. (An update with an empty resolution fails earlier, with
/// `ValidationError`; it asks for no write either.)
pub proof fn lemma_foreign_topic_is_denied(
    store: StoreModel,
    topic: TopicView,
    user: Uuid,
    found: Option<TopicView>,
    resolution: Seq<char>,
    side: bool,
    answer: Result<(), Seq<char>>,
)
    requires
        store.wf(),
        store.holds(topic),
        topic.owner_id != user,
        store.finds(found),
    ensures
        delete_run(topic.id, user, found, answer) == (Run::<()> {
            write: None,
            outcome: Err(ServiceErrorView::NotFoundOrDenied),
        }),
        acceptable(resolution) ==> update_run(topic.id, resolution, side, user, found, answer) == (
        Run::<()> { write: None, outcome: Err(ServiceErrorView::NotFoundOrDenied) }),
        update_run(topic.id, resolution, side, user, found, answer).write is None,
        store.settle(delete_run(topic.id, user, found, answer).write, answer) == store,
        store.settle(update_run(topic.id, resolution, side, user, found, answer).write, answer)
            == store,
{
}

/// The topic that a creation builds carries the resolver's answer: two
/// creations from one request and one user, under the identifiers `id_a` and
/// `id_b`, build topics that differ by their identifiers and by what the
/// resolver answered and by nothing else, so they hold the same resolution
/// exactly when the resolver answered the same twice.
pub proof fn lemma_creation_follows_resolver(
    resolution: Seq<char>,
    normal_chat: Option<bool>,
    user: Uuid,
    resolved_a: Seq<char>,
    id_a: Uuid,
    resolved_b: Seq<char>,
    id_b: Uuid,
    answer: Result<(), Seq<char>>,
)
    requires
        acceptable(resolution),
    ensures
        create_run(resolution, normal_chat, user, Ok(resolved_a), id_a, answer).write == Some(
            creation_of(TopicView::created(id_a, resolved_a, user, normal_chat)),
        ),
        create_run(resolution, normal_chat, user, Ok(resolved_b), id_b, answer).write == Some(
            creation_of(TopicView::created(id_b, resolved_b, user, normal_chat)),
        ),
        TopicView::created(id_a, resolved_a, user, normal_chat) == (TopicView {
            id: id_a,
            resolution: resolved_a,
            ..TopicView::created(id_b, resolved_b, user, normal_chat)
        }),
        (TopicView::created(id_a, resolved_a, user, normal_chat).resolution == TopicView::created(
            id_b,
            resolved_b,
            user,
            normal_chat,
        ).resolution) <==> resolved_a == resolved_b,
{
}

/// A creation that succeeds hands back the topic that it asked the
/// datastore to store: owned by the caller, with the resolver's answer, the
/// request's flag and the identifier drawn.
pub proof fn lemma_creation_returns_what_it_stored(
    resolution: Seq<char>,
    normal_chat: Option<bool>,
    user: Uuid,
    resolved: Result<Seq<char>, Seq<char>>,
    id: Uuid,
    answer: Result<(), Seq<char>>,
)
    ensures
        create_run(resolution, normal_chat, user, resolved, id, answer).outcome matches Ok(topic)
            ==> {
            &&& resolved matches Ok(canonical)
            &&& answer is Ok
            &&& topic == TopicView::created(id, canonical, user, normal_chat)
            &&& create_run(resolution, normal_chat, user, resolved, id, answer).write == Some(
                creation_of(topic),
            )
        },
        acceptable(resolution) && resolved is Ok && answer is Ok ==> create_run(
            resolution,
            normal_chat,
            user,
            resolved,
            id,
            answer,
        ).outcome is Ok,
{
}

/// A creation only ever asks to store a topic of the caller.
pub proof fn lemma_creation_is_entitled(
    store: StoreModel,
    resolution: Seq<char>,
    normal_chat: Option<bool>,
    user: Uuid,
    resolved: Result<Seq<char>, Seq<char>>,
    id: Uuid,
    answer: Result<(), Seq<char>>,
)
    ensures
        create_run(resolution, normal_chat, user, resolved, id, answer).write matches Some(write)
            ==> store.entitles(user, write),
{
}

/// A deletion asks for a write only after an honest lookup handed back the
/// requested topic as one of the caller's: the write is then the delete of
/// that very topic, and the caller may ask for it.
pub proof fn lemma_deletion_is_entitled(
    store: StoreModel,
    topic_id: Uuid,
    user: Uuid,
    found: Option<TopicView>,
    answer: Result<(), Seq<char>>,
)
    requires
        store.wf(),
        store.finds(found),
    ensures
        delete_run(topic_id, user, found, answer).write matches Some(write) ==> {
            &&& write == Write::Delete { topic_id }
            &&& store.get_for_owner(user, topic_id) == found
            &&& store.entitles(user, write)
        },
{
}

/// An update asks for a write only after an honest lookup handed back the
/// requested topic as one of the caller's: the write then sets the
/// request's resolution, which is not empty, and its `side` on that very
/// topic, and the caller may ask for it.
pub proof fn lemma_update_is_entitled(
    store: StoreModel,
    topic_id: Uuid,
    resolution: Seq<char>,
    side: bool,
    user: Uuid,
    found: Option<TopicView>,
    answer: Result<(), Seq<char>>,
)
    requires
        store.wf(),
        store.finds(found),
    ensures
        update_run(topic_id, resolution, side, user, found, answer).write matches Some(write)
            ==> {
            &&& write == Write::Update { topic_id, resolution, side }
            &&& acceptable(resolution)
            &&& store.get_for_owner(user, topic_id) == found
            &&& store.entitles(user, write)
        },
{
}

/// An owned topic that an honest lookup finds is deleted: the deletion asks
/// for exactly the delete of that topic and, where the datastore carries it
/// out, succeeds and leaves the datastore without the topic.
pub proof fn lemma_owned_topic_is_deleted(
    store: StoreModel,
    topic: TopicView,
    answer: Result<(), Seq<char>>,
)
    requires
        store.wf(),
        store.holds(topic),
    ensures
        delete_run(topic.id, topic.owner_id, Some(topic), answer) == (Run::<()> {
            write: Some(Write::Delete { topic_id: topic.id }),
            outcome: written((), answer),
        }),
        answer is Ok ==> !store.settle(
            delete_run(topic.id, topic.owner_id, Some(topic), answer).write,
            answer,
        ).topics.contains_key(topic.id),
        answer is Err ==> store.settle(
            delete_run(topic.id, topic.owner_id, Some(topic), answer).write,
            answer,
        ) == store,
{
}

/// An owned topic that an honest lookup finds is updated: where the
/// datastore carries the write out, the topic holds the new resolution and
/// `side`, and its identifier, owner and `normal_chat` are as before.
pub proof fn lemma_owned_topic_is_updated(
    store: StoreModel,
    topic: TopicView,
    resolution: Seq<char>,
    side: bool,
    answer: Result<(), Seq<char>>,
)
    requires
        store.wf(),
        store.holds(topic),
        acceptable(resolution),
    ensures
        update_run(topic.id, resolution, side, topic.owner_id, Some(topic), answer) == (Run::<()> {
            write: Some(Write::Update { topic_id: topic.id, resolution, side }),
            outcome: written((), answer),
        }),
        answer is Ok ==> store.settle(
            update_run(topic.id, resolution, side, topic.owner_id, Some(topic), answer).write,
            answer,
        ).holds(TopicView { resolution, side, ..topic }),
        answer is Err ==> store.settle(
            update_run(topic.id, resolution, side, topic.owner_id, Some(topic), answer).write,
            answer,
        ) == store,
{
}

/// One honestly answered write keeps the datastore well formed and never
/// changes the owner recorded for an identifier: the identifier and the
/// owner of a topic are fixed for good, and so is its `normal_chat`.
pub proof fn lemma_step_keeps_owners(store: StoreModel, step: Step)
    requires
        store.wf(),
        store.answers(step.write, step.answer),
    ensures
        store.after(step.write, step.answer).wf(),
        forall|id: Uuid| #[trigger]
            store.owners.contains_key(id) ==> store.after(
                step.write,
                step.answer,
            ).owners.contains_key(id) && store.after(step.write, step.answer).owners[id]
                == store.owners[id],
        forall|id: Uuid| #[trigger]
            store.topics.contains_key(id) && store.after(
                step.write,
                step.answer,
            ).topics.contains_key(id) ==> {
                &&& store.after(step.write, step.answer).topics[id].id == store.topics[id].id
                &&& store.after(step.write, step.answer).topics[id].owner_id
                    == store.topics[id].owner_id
                &&& store.after(step.write, step.answer).topics[id].normal_chat
                    == store.topics[id].normal_chat
            },
{
}

/// What a user may ask for, the user may still ask for after any honestly
/// answered write of anyone: a lookup that let a mutation through stays
/// good however long the write comes after it.
pub proof fn lemma_entitlement_survives_step(
    store: StoreModel,
    user: Uuid,
    write: Write,
    step: Step,
)
    requires
        store.wf(),
        store.entitles(user, write),
        store.answers(step.write, step.answer),
    ensures
        store.after(step.write, step.answer).entitles(user, write),
{
}

/// Any number of honestly answered writes keep the datastore well formed.
pub proof fn lemma_run_keeps_wf(store: StoreModel, steps: Seq<Step>)
    requires
        store.wf(),
        store.honest(steps),
    ensures
        store.run(steps).wf(),
    decreases steps.len(),
{
    if steps.len() > 0 {
        lemma_run_keeps_wf(store, steps.drop_last());
        lemma_step_keeps_owners(store.run(steps.drop_last()), steps.last());
    }
}

/// What a user may ask for, the user may still ask for after any number of
/// honestly answered writes.
pub proof fn lemma_entitlement_survives(
    store: StoreModel,
    user: Uuid,
    write: Write,
    steps: Seq<Step>,
)
    requires
        store.wf(),
        store.entitles(user, write),
        store.honest(steps),
    ensures
        store.run(steps).entitles(user, write),
    decreases steps.len(),
{
    if steps.len() > 0 {
        lemma_entitlement_survives(store, user, write, steps.drop_last());
        lemma_run_keeps_wf(store, steps.drop_last());
        lemma_entitlement_survives_step(store.run(steps.drop_last()), user, write, steps.last());
    }
}

/// A write that its user may ask for leaves the topics of every other user
/// as they were.
pub proof fn lemma_entitled_step_spares_others(store: StoreModel, step: Step, other: Uuid)
    requires
        store.wf(),
        store.entitles(step.user, step.write),
        store.answers(step.write, step.answer),
        step.user != other,
    ensures
        store.after(step.write, step.answer).owned_by(other) == store.owned_by(other),
{
    assert(store.after(step.write, step.answer).owned_by(other) =~= store.owned_by(other));
}

/// A write that its user might ask for when the lookup answered is still
/// harmless to everyone else when it reaches the datastore, however many
/// honestly answered writes of anyone came in between.
pub proof fn lemma_late_write_spares_others(
    store: StoreModel,
    between: Seq<Step>,
    step: Step,
    other: Uuid,
)
    requires
        store.wf(),
        store.entitles(step.user, step.write),
        store.honest(between),
        store.run(between).answers(step.write, step.answer),
        step.user != other,
    ensures
        store.run(between).after(step.write, step.answer).owned_by(other) == store.run(
            between,
        ).owned_by(other),
{
    lemma_run_keeps_wf(store, between);
    lemma_entitlement_survives(store, step.user, step.write, between);
    lemma_entitled_step_spares_others(store.run(between), step, other);
}

/// Whatever other users do, in whatever order the datastore sees their
/// writes, the topics of `user` stay as they were.
pub proof fn lemma_others_cannot_touch(store: StoreModel, steps: Seq<Step>, user: Uuid)
    requires
        store.wf(),
        store.honest(steps),
        store.legitimate(steps),
        forall|i: int| 0 <= i < steps.len() ==> (#[trigger] steps[i]).user != user,
    ensures
        store.run(steps).owned_by(user) == store.owned_by(user),
    decreases steps.len(),
{
    if steps.len() > 0 {
        let earlier = steps.drop_last();
        assert forall|i: int| 0 <= i < earlier.len() implies (#[trigger] earlier[i]).user
            != user by {
            assert(earlier[i] == steps[i]);
        }
        lemma_others_cannot_touch(store, earlier, user);
        lemma_run_keeps_wf(store, earlier);
        lemma_entitled_step_spares_others(store.run(earlier), steps.last(), user);
    }
}

/// A listing hands back what the datastore listed, so with an honest
/// datastore exactly the caller's topics, each once; and that is what the
/// caller owned before other users' writes came in, whatever they were and
/// in whatever order.
pub proof fn lemma_listing_is_exact(
    store: StoreModel,
    steps: Seq<Step>,
    user: Uuid,
    topics: Seq<TopicView>,
)
    requires
        store.wf(),
        store.honest(steps),
        store.legitimate(steps),
        forall|i: int| 0 <= i < steps.len() ==> (#[trigger] steps[i]).user != user,
        store.run(steps).lists(user, topics),
    ensures
        listed_as(Ok(topics)) == Ok::<Seq<TopicView>, ServiceErrorView>(topics),
        topics.to_set() == store.owned_by(user),
        forall|topic: TopicView|
            topics.contains(topic) <==> store.holds(topic) && topic.owner_id == user,
{
    lemma_others_cannot_touch(store, steps, user);
    assert forall|topic: TopicView|
        topics.contains(topic) <==> store.holds(topic) && topic.owner_id == user by {
        assert(topics.contains(topic) <==> topics.to_set().contains(topic));
    }
}

/// No write of an update stores an empty resolution, and the write of a
/// creation stores one only if the resolver answered with one: while the
/// resolver keeps to non-empty answers, no stored resolution is ever empty.
pub proof fn lemma_resolutions_stay_non_empty(
    store: StoreModel,
    topic_id: Uuid,
    resolution: Seq<char>,
    normal_chat: Option<bool>,
    side: bool,
    user: Uuid,
    resolved: Result<Seq<char>, Seq<char>>,
    id: Uuid,
    found: Option<TopicView>,
    answer: Result<(), Seq<char>>,
)
    requires
        store.resolutions_non_empty(),
    ensures
        store.settle(delete_run(topic_id, user, found, answer).write, answer).resolutions_non_empty(),
        store.settle(
            update_run(topic_id, resolution, side, user, found, answer).write,
            answer,
        ).resolutions_non_empty(),
        (resolved matches Ok(canonical) ==> acceptable(canonical)) ==> store.settle(
            create_run(resolution, normal_chat, user, resolved, id, answer).write,
            answer,
        ).resolutions_non_empty(),
{
}

} // verus!
