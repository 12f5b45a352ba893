//! Runs of a command: what the host is asked for, and where the command
//! stands, when its actions are answered by a given sequence of events.
//!
//! Every statement here holds for all events, so for every store and every
//! completion API that a host may talk to.

use vstd::prelude::*;
use crate::behavior::{is_score, log_behavior_plan, LogBehaviorInputView};
use crate::completion::content_of_texts;
use crate::failure::FailureView;
use crate::identity::update_identity_plan;
use crate::json::parsed_texts;
use crate::completion::reflection_request;
use crate::protocol::{
    execute, failed, fetch, next_step, reply_of_rows, ActionView, Entity, EventView, PendingView,
    ReplyView, Shape, StepView,
};
use crate::reflection::{generate_reflection_plan, ReflectionInputView};
use crate::statement::{QueryView, StatementView};
use crate::value::RowView;

verus! {

/// Where a command that stands at `step` gets to when the host answers its
/// actions with `events`, one for each and in order. Events that come after
/// the end change nothing.
pub open spec fn after(step: StepView, events: Seq<EventView>) -> StepView
    decreases events.len(),
{
    if events.len() == 0 {
        step
    } else {
        match step {
            StepView::Done(_) => step,
            StepView::Perform { then, .. } => after(
                next_step(then, events.first()),
                events.drop_first(),
            ),
        }
    }
}

/// The actions that the host is asked for on that way, in order.
pub open spec fn asked(step: StepView, events: Seq<EventView>) -> Seq<ActionView>
    decreases events.len(),
{
    match step {
        StepView::Done(_) => Seq::empty(),
        StepView::Perform { action, then } => if events.len() == 0 {
            seq![action]
        } else {
            seq![action] + asked(next_step(then, events.first()), events.drop_first())
        },
    }
}

/// The number of events after which a command that waits with `pending` has
/// ended at the latest.
pub open spec fn events_left(pending: PendingView) -> nat {
    match pending {
        PendingView::Rows(_) => 1,
        PendingView::Inserted(_) => 2,
        PendingView::Renamed { description: Some(_), .. } => 3,
        PendingView::Renamed { description: None, .. } => 2,
        PendingView::Changed { .. } => 2,
        PendingView::Written => 1,
        PendingView::JournalSet => 2,
        PendingView::SchemaApplied => 1,
        PendingView::Completion { .. } => 3,
    }
}

/// The number of events after which a command that stands at `step` has
/// ended at the latest.
pub open spec fn events_needed(step: StepView) -> nat {
    match step {
        StepView::Done(_) => 0,
        StepView::Perform { then, .. } => events_left(then),
    }
}

/// Every event brings a command nearer to its end.
pub proof fn lemma_progress(pending: PendingView, event: EventView)
    ensures
        events_needed(next_step(pending, event)) < events_left(pending),
{
}

/// Every command ends: once the host has answered as many actions as the
/// command needs at most, it is done.
pub proof fn lemma_commands_end(step: StepView, events: Seq<EventView>)
    requires
        events.len() >= events_needed(step),
    ensures
        after(step, events) is Done,
    decreases events.len(),
{
    match step {
        StepView::Done(_) => {},
        StepView::Perform { then, .. } => {
            lemma_commands_end(next_step(then, events.first()), events.drop_first());
        },
    }
}

/// Whether `reply` is of the kind that rows make when read as `shape`.
pub open spec fn has_shape(reply: ReplyView, shape: Shape) -> bool {
    match shape {
        Shape::User => reply is User,
        Shape::MaybeUser => reply is MaybeUser,
        Shape::Identity => reply is Identity,
        Shape::MaybeIdentity => reply is MaybeIdentity,
        Shape::Identities => reply is Identities,
        Shape::Trait => reply is Trait,
        Shape::Traits => reply is Traits,
        Shape::Behavior => reply is Behavior,
        Shape::Behaviors => reply is Behaviors,
        Shape::Alignment => reply is Alignment,
        Shape::Trends => reply is Trends,
        Shape::Reflection => reply is Reflection,
        Shape::MaybeReflection => reply is MaybeReflection,
        Shape::Reflections => reply is Reflections,
    }
}

/// The kind of reply that a command which waits with `pending` answers with
/// if it succeeds: rows read as a shape, or `None` for a reply that shows
/// nothing.
pub open spec fn promised(pending: PendingView) -> Option<Shape> {
    match pending {
        PendingView::Rows(shape) => Some(shape),
        PendingView::Inserted(entity) => Some(entity.one()),
        PendingView::Renamed { .. } => Some(Shape::Identity),
        PendingView::Changed { .. } => Some(Shape::Identity),
        PendingView::Written => None,
        PendingView::JournalSet => None,
        PendingView::SchemaApplied => None,
        PendingView::Completion { .. } => Some(Shape::Reflection),
    }
}

/// Whether `reply` is of the kind `promise`.
pub open spec fn keeps(reply: ReplyView, promise: Option<Shape>) -> bool {
    match promise {
        Some(shape) => has_shape(reply, shape),
        None => reply is Nothing,
    }
}

/// A command that succeeds answers with the kind of reply that it promised
/// when it asked for its first action, whatever the host reported on the way.
pub proof fn lemma_reply_is_as_promised(step: StepView, events: Seq<EventView>)
    requires
        step is Perform,
    ensures
        after(step, events) matches StepView::Done(Ok(reply)) ==> keeps(
            reply,
            promised(step->then),
        ),
    decreases events.len(),
{
    if events.len() > 0 {
        let next = next_step(step->then, events.first());
        match next {
            StepView::Done(_) => {
                assert(after(next, events.drop_first()) == next);
            },
            StepView::Perform { .. } => {
                lemma_reply_is_as_promised(next, events.drop_first());
            },
        }
    }
}

/// A command that reads asks for its one query and for nothing else: it
/// writes nothing, whatever comes back.
pub proof fn lemma_reading_writes_nothing(query: QueryView, shape: Shape, events: Seq<EventView>)
    ensures
        asked(fetch(query, shape), events) == seq![ActionView::Fetch(query)],
{
    if events.len() > 0 {
        assert(asked(next_step(PendingView::Rows(shape), events.first()), events.drop_first())
            =~= Seq::<ActionView>::empty());
    }
}

/// A command that inserts fetches the row of its insert next, by the row id
/// that the host reports, and answers with what that fetch finds.
pub proof fn lemma_insert_is_followed_by_fetch(
    statement: StatementView,
    entity: Entity,
    last_insert_id: i64,
    rows: Seq<RowView>,
)
    ensures
        asked(
            execute(statement, PendingView::Inserted(entity)),
            seq![EventView::Executed { last_insert_id }, EventView::Rows(rows)],
        ) == seq![
            ActionView::Execute(statement),
            ActionView::Fetch(entity.by_id(last_insert_id)),
        ],
        after(
            execute(statement, PendingView::Inserted(entity)),
            seq![EventView::Executed { last_insert_id }, EventView::Rows(rows)],
        ) == StepView::Done(reply_of_rows(entity.one(), rows)),
{
    reveal_with_fuel(after, 3);
    reveal_with_fuel(asked, 3);
    let events = seq![EventView::Executed { last_insert_id }, EventView::Rows(rows)];
    assert(events.drop_first() =~= seq![EventView::Rows(rows)]);
    assert(events.drop_first().drop_first() =~= Seq::<EventView>::empty());
}

/// A behavior whose score lies outside 1 to 10 is refused as invalid, and the
/// host is asked for nothing: no write takes place.
pub proof fn lemma_refused_score_writes_nothing(
    input: LogBehaviorInputView,
    events: Seq<EventView>,
)
    requires
        !is_score(input.alignment_score),
    ensures
        after(log_behavior_plan(input), events) == failed(FailureView::ScoreOutOfRange),
        asked(log_behavior_plan(input), events) == Seq::<ActionView>::empty(),
        FailureView::ScoreOutOfRange.is_validation(),
{
}

/// A behavior whose score is one of 1 to 10 is inserted with the fields of
/// the input, and the row of that insert is what the command then fetches.
pub proof fn lemma_logged_behavior_is_fetched(
    input: LogBehaviorInputView,
    last_insert_id: i64,
    events: Seq<EventView>,
)
    requires
        is_score(input.alignment_score),
        events.len() >= 1,
        events[0] == (EventView::Executed { last_insert_id }),
    ensures
        asked(log_behavior_plan(input), events) == seq![
            ActionView::Execute(
                StatementView::InsertBehavior {
                    date: input.date,
                    description: input.description,
                    identity_id: input.identity_id,
                    alignment_score: input.alignment_score,
                },
            ),
            ActionView::Fetch(QueryView::BehaviorById { id: last_insert_id }),
        ],
{
    lemma_reading_writes_nothing(
        QueryView::BehaviorById { id: last_insert_id },
        Shape::Behavior,
        events.drop_first(),
    );
}

/// An update that names a new name and no description renames the identity
/// and fetches it: at no point does it write a description.
pub proof fn lemma_rename_leaves_description(id: i64, name: Seq<char>, events: Seq<EventView>)
    ensures
        asked(update_identity_plan(id, Some(name), None), events).is_prefix_of(
            seq![
                ActionView::Execute(StatementView::RenameIdentity { id, name }),
                ActionView::Fetch(QueryView::IdentityById { id }),
            ],
        ),
{
    if events.len() > 0 {
        let second = next_step(PendingView::Renamed { id, description: None }, events.first());
        if second is Done {
            assert(asked(second, events.drop_first()) =~= Seq::<ActionView>::empty());
        } else {
            lemma_reading_writes_nothing(
                QueryView::IdentityById { id },
                Shape::Identity,
                events.drop_first(),
            );
        }
    }
}

/// An update that names a new description and no name describes the identity
/// and fetches it: at no point does it write a name.
pub proof fn lemma_describe_leaves_name(id: i64, description: Seq<char>, events: Seq<EventView>)
    ensures
        asked(update_identity_plan(id, None, Some(description)), events).is_prefix_of(
            seq![
                ActionView::Execute(StatementView::DescribeIdentity { id, description }),
                ActionView::Fetch(QueryView::IdentityById { id }),
            ],
        ),
{
    if events.len() > 0 {
        let second = next_step(PendingView::Changed { id }, events.first());
        if second is Done {
            assert(asked(second, events.drop_first()) =~= Seq::<ActionView>::empty());
        } else {
            lemma_reading_writes_nothing(
                QueryView::IdentityById { id },
                Shape::Identity,
                events.drop_first(),
            );
        }
    }
}

/// An update that names both writes the name first and the description
/// second, each with a statement of its own, then fetches the identity and
/// answers with it as it then is; an identity that is not there is a failure.
pub proof fn lemma_update_writes_name_then_description(
    id: i64,
    name: Seq<char>,
    description: Seq<char>,
    first_id: i64,
    second_id: i64,
    rows: Seq<RowView>,
)
    ensures
        asked(
            update_identity_plan(id, Some(name), Some(description)),
            seq![
                EventView::Executed { last_insert_id: first_id },
                EventView::Executed { last_insert_id: second_id },
                EventView::Rows(rows),
            ],
        ) == seq![
            ActionView::Execute(StatementView::RenameIdentity { id, name }),
            ActionView::Execute(StatementView::DescribeIdentity { id, description }),
            ActionView::Fetch(QueryView::IdentityById { id }),
        ],
        after(
            update_identity_plan(id, Some(name), Some(description)),
            seq![
                EventView::Executed { last_insert_id: first_id },
                EventView::Executed { last_insert_id: second_id },
                EventView::Rows(rows),
            ],
        ) == StepView::Done(reply_of_rows(Shape::Identity, rows)),
        rows.len() == 0 ==> reply_of_rows(Shape::Identity, rows) == Err::<ReplyView, FailureView>(
            FailureView::NotFound,
        ),
{
    let events = seq![
        EventView::Executed { last_insert_id: first_id },
        EventView::Executed { last_insert_id: second_id },
        EventView::Rows(rows),
    ];
    reveal_with_fuel(after, 4);
    reveal_with_fuel(asked, 4);
    let rest = events.drop_first();
    assert(rest =~= seq![EventView::Executed { last_insert_id: second_id }, EventView::Rows(rows)]);
    assert(rest.drop_first() =~= seq![EventView::Rows(rows)]);
    assert(rest.drop_first().drop_first() =~= Seq::<EventView>::empty());
}

/// Deleting a trait succeeds once the statement ran, whether or not there
/// was such a trait.
pub proof fn lemma_delete_trait_succeeds(id: i64, last_insert_id: i64)
    ensures
        after(
            execute(StatementView::DeleteTrait { id }, PendingView::Written),
            seq![EventView::Executed { last_insert_id }],
        ) == StepView::Done(Ok(ReplyView::Nothing)),
{
    let events = seq![EventView::Executed { last_insert_id }];
    assert(after(StepView::Done(Ok(ReplyView::Nothing)), events.drop_first()) == StepView::Done(
        Ok(ReplyView::Nothing),
    ));
}

/// Generating a reflection writes nothing before the completion API has
/// answered with a payload. What it then asks the store to write, once, is
/// that payload as the reflection of the input's day and identity.
pub proof fn lemma_reflection_stores_the_payload(
    api_key: Seq<char>,
    input: ReflectionInputView,
    events: Seq<EventView>,
    at: int,
)
    requires
        0 <= at < asked(generate_reflection_plan(api_key, input), events).len(),
        asked(generate_reflection_plan(api_key, input), events)[at] is Execute,
    ensures
        at == 1,
        api_key.len() > 0,
        events.len() >= 1,
        events[0] is Answered,
        content_of_texts(parsed_texts(events[0]->Answered_body)) is Ok,
        asked(generate_reflection_plan(api_key, input), events)[at] == ActionView::Execute(
            StatementView::PutReflection {
                date: input.date,
                content: content_of_texts(parsed_texts(events[0]->Answered_body))->Ok_0,
                identity_id: input.identity_id,
            },
        ),
{
    let waiting = PendingView::Completion { date: input.date, identity_id: input.identity_id };
    let second = next_step(waiting, events.first());
    let rest = events.drop_first();
    assert(asked(second, rest).len() > 0);
    if rest.len() > 0 {
        let third = next_step(PendingView::Inserted(Entity::Reflection), rest.first());
        if third is Perform {
            lemma_reading_writes_nothing(
                QueryView::ReflectionById { id: rest.first()->Executed_last_insert_id },
                Shape::Reflection,
                rest.drop_first(),
            );
        } else {
            assert(asked(third, rest.drop_first()) =~= Seq::<ActionView>::empty());
        }
    }
}

/// A generation that succeeds goes through its stages in order: the
/// completion API is asked with the request composed from the input, the
/// payload of its answer is stored, and the stored row is fetched and
/// answered with.
pub proof fn lemma_reflection_stages(
    api_key: Seq<char>,
    input: ReflectionInputView,
    body: Seq<u8>,
    last_insert_id: i64,
    rows: Seq<RowView>,
)
    requires
        api_key.len() > 0,
        content_of_texts(parsed_texts(body)) is Ok,
    ensures
        asked(
            generate_reflection_plan(api_key, input),
            seq![
                EventView::Answered { body },
                EventView::Executed { last_insert_id },
                EventView::Rows(rows),
            ],
        ) == seq![
            ActionView::Complete(reflection_request(api_key, input)),
            ActionView::Execute(
                StatementView::PutReflection {
                    date: input.date,
                    content: content_of_texts(parsed_texts(body))->Ok_0,
                    identity_id: input.identity_id,
                },
            ),
            ActionView::Fetch(QueryView::ReflectionById { id: last_insert_id }),
        ],
        after(
            generate_reflection_plan(api_key, input),
            seq![
                EventView::Answered { body },
                EventView::Executed { last_insert_id },
                EventView::Rows(rows),
            ],
        ) == StepView::Done(reply_of_rows(Shape::Reflection, rows)),
{
    let events = seq![
        EventView::Answered { body },
        EventView::Executed { last_insert_id },
        EventView::Rows(rows),
    ];
    let rest = events.drop_first();
    assert(rest =~= seq![EventView::Executed { last_insert_id }, EventView::Rows(rows)]);
    let statement = StatementView::PutReflection {
        date: input.date,
        content: content_of_texts(parsed_texts(body))->Ok_0,
        identity_id: input.identity_id,
    };
    lemma_insert_is_followed_by_fetch(statement, Entity::Reflection, last_insert_id, rows);
}

} // verus!
