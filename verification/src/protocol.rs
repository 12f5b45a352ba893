//! The protocol between the library and its host.
//!
//! A command starts with a [`Step`]. While the step is `Perform`, the host
//! carries out its action against the store or the completion API and reports
//! the outcome as an [`Event`]; [`resume`] turns the pending state and the
//! event into the next step. `Done` ends the command with its reply or with
//! the failure that stopped it.

use vstd::prelude::*;
use crate::analytics::{AlignmentTrend, AlignmentTrendView, DayAlignment, DayAlignmentView};
use crate::behavior::{BehaviorLog, BehaviorLogView};
use crate::completion::{
    content_of_texts, read_response, CompletionRequest, CompletionRequestView,
};
use crate::failure::{result_view, Failure, FailureView};
use crate::identity::{Identity, IdentityView};
use crate::json::parsed_texts;
use crate::record::{
    all_of_rows, first_of_rows, optional_of_rows, read_all, read_first, read_optional,
};
use crate::reflection::{DailyReflection, DailyReflectionView};
use crate::schema::Script;
use crate::statement::{Query, QueryView, Statement, StatementView};
use crate::trait_::{Trait, TraitView};
use crate::user::{User, UserView};
use crate::value::{RowView, SqlValue};

verus! {

/// What the host is asked to do.
#[derive(Debug, Clone, PartialEq, Eq)]
pub enum Action {
    /// Run the statement with its parameters; report `Executed`.
    Execute(Statement),
    /// Run the query with its parameters; report all of its `Rows`.
    Fetch(Query),
    /// Run the script; report `Ran`.
    Run(Script),
    /// Send the request; report `Answered` for a success status and
    /// `Rejected` for any other.
    Complete(CompletionRequest),
}

/// Mathematical model of an [`Action`].
pub enum ActionView {
    Execute(StatementView),
    Fetch(QueryView),
    Run(Script),
    Complete(CompletionRequestView),
}

impl View for Action {
    type V = ActionView;

    open spec fn view(&self) -> ActionView {
        match self {
            Action::Execute(statement) => ActionView::Execute(statement@),
            Action::Fetch(query) => ActionView::Fetch(query@),
            Action::Run(script) => ActionView::Run(*script),
            Action::Complete(request) => ActionView::Complete(request@),
        }
    }
}

impl DeepView for Action {
    type V = ActionView;

    open spec fn deep_view(&self) -> ActionView {
        self@
    }
}

/// What the host reports of an action.
#[derive(Debug, Clone, PartialEq, Eq)]
#[allow(inconsistent_fields)]
pub enum Event {
    /// The statement ran. `last_insert_id` is the row id of the connection's
    /// last insert.
    Executed { last_insert_id: i64 },
    /// The query ran and found these rows, in the order it gives them.
    Rows(Vec<Vec<SqlValue>>),
    /// The script ran.
    Ran,
    /// The completion API answered with a success status and this body.
    Answered { body: Vec<u8> },
    /// The completion API answered with another status; its body as text.
    Rejected { body: String },
    /// The action could not be carried out; the message of whoever refused.
    Failed(String),
}

/// Mathematical model of an [`Event`].
#[allow(inconsistent_fields)]
pub enum EventView {
    Executed { last_insert_id: i64 },
    Rows(Seq<RowView>),
    Ran,
    Answered { body: Seq<u8> },
    Rejected { body: Seq<char> },
    Failed(Seq<char>),
}

impl View for Event {
    type V = EventView;

    open spec fn view(&self) -> EventView {
        match self {
            Event::Executed { last_insert_id } => EventView::Executed {
                last_insert_id: *last_insert_id,
            },
            Event::Rows(rows) => EventView::Rows(rows.deep_view()),
            Event::Ran => EventView::Ran,
            Event::Answered { body } => EventView::Answered { body: body@ },
            Event::Rejected { body } => EventView::Rejected { body: body@ },
            Event::Failed(message) => EventView::Failed(message@),
        }
    }
}

impl DeepView for Event {
    type V = EventView;

    open spec fn deep_view(&self) -> EventView {
        self@
    }
}

/// What a command answers with.
#[derive(Debug, Clone, PartialEq, Eq)]
pub enum Reply {
    /// The command is done and has nothing to show.
    Nothing,
    User(User),
    MaybeUser(Option<User>),
    Identity(Identity),
    MaybeIdentity(Option<Identity>),
    Identities(Vec<Identity>),
    Trait(Trait),
    Traits(Vec<Trait>),
    Behavior(BehaviorLog),
    Behaviors(Vec<BehaviorLog>),
    Alignment(Vec<DayAlignment>),
    Trends(Vec<AlignmentTrend>),
    Reflection(DailyReflection),
    MaybeReflection(Option<DailyReflection>),
    Reflections(Vec<DailyReflection>),
}

/// Mathematical model of a [`Reply`].
pub enum ReplyView {
    Nothing,
    User(UserView),
    MaybeUser(Option<UserView>),
    Identity(IdentityView),
    MaybeIdentity(Option<IdentityView>),
    Identities(Seq<IdentityView>),
    Trait(TraitView),
    Traits(Seq<TraitView>),
    Behavior(BehaviorLogView),
    Behaviors(Seq<BehaviorLogView>),
    Alignment(Seq<DayAlignmentView>),
    Trends(Seq<AlignmentTrendView>),
    Reflection(DailyReflectionView),
    MaybeReflection(Option<DailyReflectionView>),
    Reflections(Seq<DailyReflectionView>),
}

impl View for Reply {
    type V = ReplyView;

    open spec fn view(&self) -> ReplyView {
        match self {
            Reply::Nothing => ReplyView::Nothing,
            Reply::User(user) => ReplyView::User(user@),
            Reply::MaybeUser(user) => ReplyView::MaybeUser(user.deep_view()),
            Reply::Identity(identity) => ReplyView::Identity(identity@),
            Reply::MaybeIdentity(identity) => ReplyView::MaybeIdentity(identity.deep_view()),
            Reply::Identities(identities) => ReplyView::Identities(identities.deep_view()),
            Reply::Trait(item) => ReplyView::Trait(item@),
            Reply::Traits(items) => ReplyView::Traits(items.deep_view()),
            Reply::Behavior(behavior) => ReplyView::Behavior(behavior@),
            Reply::Behaviors(behaviors) => ReplyView::Behaviors(behaviors.deep_view()),
            Reply::Alignment(days) => ReplyView::Alignment(days.deep_view()),
            Reply::Trends(days) => ReplyView::Trends(days.deep_view()),
            Reply::Reflection(reflection) => ReplyView::Reflection(reflection@),
            Reply::MaybeReflection(reflection) => ReplyView::MaybeReflection(
                reflection.deep_view(),
            ),
            Reply::Reflections(reflections) => ReplyView::Reflections(reflections.deep_view()),
        }
    }
}

impl DeepView for Reply {
    type V = ReplyView;

    open spec fn deep_view(&self) -> ReplyView {
        self@
    }
}

/// The tables whose rows carry an id of their own.
#[derive(Debug, Clone, Copy, PartialEq, Eq)]
pub enum Entity {
    User,
    Identity,
    Trait,
    Behavior,
    Reflection,
}

/// How the rows of a query are read into a reply: as the one record that
/// must be there, as the record that may be there, or as all records.
#[derive(Debug, Clone, Copy, PartialEq, Eq)]
pub enum Shape {
    User,
    MaybeUser,
    Identity,
    MaybeIdentity,
    Identities,
    Trait,
    Traits,
    Behavior,
    Behaviors,
    Alignment,
    Trends,
    Reflection,
    MaybeReflection,
    Reflections,
}

impl Entity {
    /// The query for the row of this table with the id `id`.
    pub open spec fn by_id(self, id: i64) -> QueryView {
        match self {
            Entity::User => QueryView::UserById { id },
            Entity::Identity => QueryView::IdentityById { id },
            Entity::Trait => QueryView::TraitById { id },
            Entity::Behavior => QueryView::BehaviorById { id },
            Entity::Reflection => QueryView::ReflectionById { id },
        }
    }

    /// The shape of the one record of this table.
    pub open spec fn one(self) -> Shape {
        match self {
            Entity::User => Shape::User,
            Entity::Identity => Shape::Identity,
            Entity::Trait => Shape::Trait,
            Entity::Behavior => Shape::Behavior,
            Entity::Reflection => Shape::Reflection,
        }
    }

    /// Builds the query for the row of this table with the id `id`.
    pub fn query_by_id(self, id: i64) -> (query: Query)
        ensures
            query@ == self.by_id(id),
    {
        match self {
            Entity::User => Query::UserById { id },
            Entity::Identity => Query::IdentityById { id },
            Entity::Trait => Query::TraitById { id },
            Entity::Behavior => Query::BehaviorById { id },
            Entity::Reflection => Query::ReflectionById { id },
        }
    }

    /// The shape of the one record of this table.
    pub fn shape_of_one(self) -> (shape: Shape)
        ensures
            shape == self.one(),
    {
        match self {
            Entity::User => Shape::User,
            Entity::Identity => Shape::Identity,
            Entity::Trait => Shape::Trait,
            Entity::Behavior => Shape::Behavior,
            Entity::Reflection => Shape::Reflection,
        }
    }
}

/// What a command waits for, and what it will do with it.
#[derive(Debug, Clone, PartialEq, Eq)]
pub enum Pending {
    /// For the rows of the last query, to read them as `shape` and be done.
    Rows(Shape),
    /// For an insert into the table of `entity`, to fetch the new row by the
    /// row id that the host reports.
    Inserted(Entity),
    /// For the renaming of identity `id`, to describe it next where a
    /// description was given, and to fetch it after that.
    Renamed { id: i64, description: Option<String> },
    /// For the last change to identity `id`, to fetch it.
    Changed { id: i64 },
    /// For a statement after which there is nothing to read.
    Written,
    /// For the journal mode to be set, to apply the schema next.
    JournalSet,
    /// For the schema to be applied.
    SchemaApplied,
    /// For the completion API, to store its answer as the reflection of
    /// `date` for identity `identity_id`.
    Completion { date: String, identity_id: i64 },
}

/// Mathematical model of a [`Pending`].
pub enum PendingView {
    Rows(Shape),
    Inserted(Entity),
    Renamed { id: i64, description: Option<Seq<char>> },
    Changed { id: i64 },
    Written,
    JournalSet,
    SchemaApplied,
    Completion { date: Seq<char>, identity_id: i64 },
}

impl View for Pending {
    type V = PendingView;

    open spec fn view(&self) -> PendingView {
        match self {
            Pending::Rows(shape) => PendingView::Rows(*shape),
            Pending::Inserted(entity) => PendingView::Inserted(*entity),
            Pending::Renamed { id, description } => PendingView::Renamed {
                id: *id,
                description: description.deep_view(),
            },
            Pending::Changed { id } => PendingView::Changed { id: *id },
            Pending::Written => PendingView::Written,
            Pending::JournalSet => PendingView::JournalSet,
            Pending::SchemaApplied => PendingView::SchemaApplied,
            Pending::Completion { date, identity_id } => PendingView::Completion {
                date: date@,
                identity_id: *identity_id,
            },
        }
    }
}

impl DeepView for Pending {
    type V = PendingView;

    open spec fn deep_view(&self) -> PendingView {
        self@
    }
}

/// Where a command stands: at an action for the host, or at its end.
#[derive(Debug, PartialEq, Eq)]
pub enum Step {
    Perform { action: Action, then: Pending },
    Done(Result<Reply, Failure>),
}

/// Mathematical model of a [`Step`].
pub enum StepView {
    Perform { action: ActionView, then: PendingView },
    Done(Result<ReplyView, FailureView>),
}

impl View for Step {
    type V = StepView;

    open spec fn view(&self) -> StepView {
        match self {
            Step::Perform { action, then } => StepView::Perform { action: action@, then: then@ },
            Step::Done(outcome) => StepView::Done(result_view(*outcome)),
        }
    }
}

impl DeepView for Step {
    type V = StepView;

    open spec fn deep_view(&self) -> StepView {
        self@
    }
}

/// The step that asks for `query` and reads its rows as `shape`.
pub open spec fn fetch(query: QueryView, shape: Shape) -> StepView {
    StepView::Perform { action: ActionView::Fetch(query), then: PendingView::Rows(shape) }
}

/// The step that asks for `statement` and waits with `then`.
pub open spec fn execute(statement: StatementView, then: PendingView) -> StepView {
    StepView::Perform { action: ActionView::Execute(statement), then }
}

/// The step that ends a command with `failure`.
pub open spec fn failed(failure: FailureView) -> StepView {
    StepView::Done(Err(failure))
}

/// The reply that `rows` make when read as `shape`.
pub open spec fn reply_of_rows(shape: Shape, rows: Seq<RowView>) -> Result<ReplyView, FailureView> {
    match shape {
        Shape::User => match first_of_rows::<User>(rows) {
            Ok(user) => Ok(ReplyView::User(user)),
            Err(failure) => Err(failure),
        },
        Shape::MaybeUser => match optional_of_rows::<User>(rows) {
            Ok(user) => Ok(ReplyView::MaybeUser(user)),
            Err(failure) => Err(failure),
        },
        Shape::Identity => match first_of_rows::<Identity>(rows) {
            Ok(identity) => Ok(ReplyView::Identity(identity)),
            Err(failure) => Err(failure),
        },
        Shape::MaybeIdentity => match optional_of_rows::<Identity>(rows) {
            Ok(identity) => Ok(ReplyView::MaybeIdentity(identity)),
            Err(failure) => Err(failure),
        },
        Shape::Identities => match all_of_rows::<Identity>(rows) {
            Ok(identities) => Ok(ReplyView::Identities(identities)),
            Err(failure) => Err(failure),
        },
        Shape::Trait => match first_of_rows::<Trait>(rows) {
            Ok(item) => Ok(ReplyView::Trait(item)),
            Err(failure) => Err(failure),
        },
        Shape::Traits => match all_of_rows::<Trait>(rows) {
            Ok(items) => Ok(ReplyView::Traits(items)),
            Err(failure) => Err(failure),
        },
        Shape::Behavior => match first_of_rows::<BehaviorLog>(rows) {
            Ok(behavior) => Ok(ReplyView::Behavior(behavior)),
            Err(failure) => Err(failure),
        },
        Shape::Behaviors => match all_of_rows::<BehaviorLog>(rows) {
            Ok(behaviors) => Ok(ReplyView::Behaviors(behaviors)),
            Err(failure) => Err(failure),
        },
        Shape::Alignment => match all_of_rows::<DayAlignment>(rows) {
            Ok(days) => Ok(ReplyView::Alignment(days)),
            Err(failure) => Err(failure),
        },
        Shape::Trends => match all_of_rows::<AlignmentTrend>(rows) {
            Ok(days) => Ok(ReplyView::Trends(days)),
            Err(failure) => Err(failure),
        },
        Shape::Reflection => match first_of_rows::<DailyReflection>(rows) {
            Ok(reflection) => Ok(ReplyView::Reflection(reflection)),
            Err(failure) => Err(failure),
        },
        Shape::MaybeReflection => match optional_of_rows::<DailyReflection>(rows) {
            Ok(reflection) => Ok(ReplyView::MaybeReflection(reflection)),
            Err(failure) => Err(failure),
        },
        Shape::Reflections => match all_of_rows::<DailyReflection>(rows) {
            Ok(reflections) => Ok(ReplyView::Reflections(reflections)),
            Err(failure) => Err(failure),
        },
    }
}

/// The step that follows when the host reports `event` to a command that
/// waits with `pending`.
///
/// A failure that the host reports ends the command: as a transport failure
/// where the completion API was asked, as a storage failure otherwise. An
/// event that `pending` does not wait for ends it too.
pub open spec fn next_step(pending: PendingView, event: EventView) -> StepView {
    match (pending, event) {
        (PendingView::Completion { .. }, EventView::Failed(message)) => failed(
            FailureView::Transport(message),
        ),
        (_, EventView::Failed(message)) => failed(FailureView::Storage(message)),
        (PendingView::Rows(shape), EventView::Rows(rows)) => StepView::Done(
            reply_of_rows(shape, rows),
        ),
        (PendingView::Inserted(entity), EventView::Executed { last_insert_id }) => fetch(
            entity.by_id(last_insert_id),
            entity.one(),
        ),
        (
            PendingView::Renamed { id, description: Some(description) },
            EventView::Executed { .. },
        ) => execute(
            StatementView::DescribeIdentity { id, description },
            PendingView::Changed { id },
        ),
        (PendingView::Renamed { id, description: None }, EventView::Executed { .. }) => fetch(
            QueryView::IdentityById { id },
            Shape::Identity,
        ),
        (PendingView::Changed { id }, EventView::Executed { .. }) => fetch(
            QueryView::IdentityById { id },
            Shape::Identity,
        ),
        (PendingView::Written, EventView::Executed { .. }) => StepView::Done(
            Ok(ReplyView::Nothing),
        ),
        (PendingView::JournalSet, EventView::Ran) => StepView::Perform {
            action: ActionView::Run(Script::Schema),
            then: PendingView::SchemaApplied,
        },
        (PendingView::SchemaApplied, EventView::Ran) => StepView::Done(Ok(ReplyView::Nothing)),
        (PendingView::Completion { date, identity_id }, EventView::Answered { body }) => {
            match content_of_texts(parsed_texts(body)) {
                Ok(content) => execute(
                    StatementView::PutReflection { date, content, identity_id },
                    PendingView::Inserted(Entity::Reflection),
                ),
                Err(failure) => failed(failure),
            }
        },
        (PendingView::Completion { .. }, EventView::Rejected { body }) => failed(
            FailureView::Api(body),
        ),
        _ => failed(FailureView::Protocol),
    }
}

/// Reads `rows` as `shape`.
pub fn read_reply(shape: Shape, rows: &Vec<Vec<SqlValue>>) -> (reply: Result<Reply, Failure>)
    ensures
        result_view(reply) == reply_of_rows(shape, rows.deep_view()),
{
    match shape {
        Shape::User => match read_first::<User>(rows) {
            Ok(user) => Ok(Reply::User(user)),
            Err(failure) => Err(failure),
        },
        Shape::MaybeUser => match read_optional::<User>(rows) {
            Ok(user) => Ok(Reply::MaybeUser(user)),
            Err(failure) => Err(failure),
        },
        Shape::Identity => match read_first::<Identity>(rows) {
            Ok(identity) => Ok(Reply::Identity(identity)),
            Err(failure) => Err(failure),
        },
        Shape::MaybeIdentity => match read_optional::<Identity>(rows) {
            Ok(identity) => Ok(Reply::MaybeIdentity(identity)),
            Err(failure) => Err(failure),
        },
        Shape::Identities => match read_all::<Identity>(rows) {
            Ok(identities) => Ok(Reply::Identities(identities)),
            Err(failure) => Err(failure),
        },
        Shape::Trait => match read_first::<Trait>(rows) {
            Ok(item) => Ok(Reply::Trait(item)),
            Err(failure) => Err(failure),
        },
        Shape::Traits => match read_all::<Trait>(rows) {
            Ok(items) => Ok(Reply::Traits(items)),
            Err(failure) => Err(failure),
        },
        Shape::Behavior => match read_first::<BehaviorLog>(rows) {
            Ok(behavior) => Ok(Reply::Behavior(behavior)),
            Err(failure) => Err(failure),
        },
        Shape::Behaviors => match read_all::<BehaviorLog>(rows) {
            Ok(behaviors) => Ok(Reply::Behaviors(behaviors)),
            Err(failure) => Err(failure),
        },
        Shape::Alignment => match read_all::<DayAlignment>(rows) {
            Ok(days) => Ok(Reply::Alignment(days)),
            Err(failure) => Err(failure),
        },
        Shape::Trends => match read_all::<AlignmentTrend>(rows) {
            Ok(days) => Ok(Reply::Trends(days)),
            Err(failure) => Err(failure),
        },
        Shape::Reflection => match read_first::<DailyReflection>(rows) {
            Ok(reflection) => Ok(Reply::Reflection(reflection)),
            Err(failure) => Err(failure),
        },
        Shape::MaybeReflection => match read_optional::<DailyReflection>(rows) {
            Ok(reflection) => Ok(Reply::MaybeReflection(reflection)),
            Err(failure) => Err(failure),
        },
        Shape::Reflections => match read_all::<DailyReflection>(rows) {
            Ok(reflections) => Ok(Reply::Reflections(reflections)),
            Err(failure) => Err(failure),
        },
    }
}

/// Decides what follows when the host reports `event` to a command that
/// waits with `pending`.
pub fn resume(pending: Pending, event: Event) -> (step: Step)
    ensures
        step@ == next_step(pending@, event@),
        event is Failed ==> step matches Step::Done(Err(_)),
{
    match (pending, event) {
        (Pending::Completion { .. }, Event::Failed(message)) => Step::Done(
            Err(Failure::Transport(message)),
        ),
        (_, Event::Failed(message)) => Step::Done(Err(Failure::Storage(message))),
        (Pending::Rows(shape), Event::Rows(rows)) => Step::Done(read_reply(shape, &rows)),
        (Pending::Inserted(entity), Event::Executed { last_insert_id }) => Step::Perform {
            action: Action::Fetch(entity.query_by_id(last_insert_id)),
            then: Pending::Rows(entity.shape_of_one()),
        },
        (Pending::Renamed { id, description: Some(description) }, Event::Executed { .. }) => {
            Step::Perform {
                action: Action::Execute(Statement::DescribeIdentity { id, description }),
                then: Pending::Changed { id },
            }
        },
        (Pending::Renamed { id, description: None }, Event::Executed { .. }) => Step::Perform {
            action: Action::Fetch(Query::IdentityById { id }),
            then: Pending::Rows(Shape::Identity),
        },
        (Pending::Changed { id }, Event::Executed { .. }) => Step::Perform {
            action: Action::Fetch(Query::IdentityById { id }),
            then: Pending::Rows(Shape::Identity),
        },
        (Pending::Written, Event::Executed { .. }) => Step::Done(Ok(Reply::Nothing)),
        (Pending::JournalSet, Event::Ran) => Step::Perform {
            action: Action::Run(Script::Schema),
            then: Pending::SchemaApplied,
        },
        (Pending::SchemaApplied, Event::Ran) => Step::Done(Ok(Reply::Nothing)),
        (Pending::Completion { date, identity_id }, Event::Answered { body }) => {
            match read_response(&body) {
                Ok(content) => Step::Perform {
                    action: Action::Execute(
                        Statement::PutReflection { date, content, identity_id },
                    ),
                    then: Pending::Inserted(Entity::Reflection),
                },
                Err(failure) => Step::Done(Err(failure)),
            }
        },
        (Pending::Completion { .. }, Event::Rejected { body }) => Step::Done(
            Err(Failure::Api(body)),
        ),
        _ => Step::Done(Err(Failure::Protocol)),
    }
}

} // verus!
