//! Behavior logs: dated actions, each scored for alignment with an identity.

use vstd::prelude::*;
use crate::failure::{Failure, FailureView};
use crate::protocol::{
    execute, failed, fetch, Action, ActionView, Entity, Pending, PendingView, Shape, Step,
    StepView,
};
use crate::record::Record;
use crate::statement::{
    behaviors_sql, bound, Query, QueryView, Statement, StatementView,
};
use crate::value::{
    integer_at, integer_in, small_integer_at, small_integer_in, text_at, text_in, RowView,
    SqlValue, SqlValueView,
};

verus! {

/// The lowest alignment score.
pub const MIN_SCORE: i32 = 1;

/// The highest alignment score.
pub const MAX_SCORE: i32 = 10;

/// Whether `score` is an alignment score: one of 1 to 10.
pub open spec fn is_score(score: i32) -> bool {
    MIN_SCORE <= score <= MAX_SCORE
}

/// Executable test for [`is_score`].
pub fn valid_score(score: i32) -> (r: bool)
    ensures
        r == is_score(score),
{
    MIN_SCORE <= score && score <= MAX_SCORE
}

/// A behavior log entry as stored.
#[derive(Debug, Clone, PartialEq, Eq)]
pub struct BehaviorLog {
    pub id: i64,
    pub date: String,
    pub description: String,
    pub identity_id: i64,
    pub alignment_score: i32,
    pub created_at: String,
}

/// Mathematical model of a [`BehaviorLog`].
pub struct BehaviorLogView {
    pub id: i64,
    pub date: Seq<char>,
    pub description: Seq<char>,
    pub identity_id: i64,
    pub alignment_score: i32,
    pub created_at: Seq<char>,
}

impl View for BehaviorLog {
    type V = BehaviorLogView;

    open spec fn view(&self) -> BehaviorLogView {
        BehaviorLogView {
            id: self.id,
            date: self.date@,
            description: self.description@,
            identity_id: self.identity_id,
            alignment_score: self.alignment_score,
            created_at: self.created_at@,
        }
    }
}

impl DeepView for BehaviorLog {
    type V = BehaviorLogView;

    open spec fn deep_view(&self) -> BehaviorLogView {
        self@
    }
}

impl Record for BehaviorLog {
    /// Columns: `id`, `date`, `description`, `identity_id`, `alignment_score`,
    /// `created_at`.
    open spec fn of_row(row: RowView) -> Result<BehaviorLogView, FailureView> {
        match integer_in(row, 0) {
            Err(failure) => Err(failure),
            Ok(id) => match text_in(row, 1) {
                Err(failure) => Err(failure),
                Ok(date) => match text_in(row, 2) {
                    Err(failure) => Err(failure),
                    Ok(description) => match integer_in(row, 3) {
                        Err(failure) => Err(failure),
                        Ok(identity_id) => match small_integer_in(row, 4) {
                            Err(failure) => Err(failure),
                            Ok(alignment_score) => match text_in(row, 5) {
                                Err(failure) => Err(failure),
                                Ok(created_at) => Ok(
                                    BehaviorLogView {
                                        id,
                                        date,
                                        description,
                                        identity_id,
                                        alignment_score,
                                        created_at,
                                    },
                                ),
                            },
                        },
                    },
                },
            },
        }
    }

    fn from_row(row: &Vec<SqlValue>) -> (r: Result<BehaviorLog, Failure>) {
        let id = integer_at(row, 0)?;
        let date = text_at(row, 1)?;
        let description = text_at(row, 2)?;
        let identity_id = integer_at(row, 3)?;
        let alignment_score = small_integer_at(row, 4)?;
        let created_at = text_at(row, 5)?;
        Ok(BehaviorLog { id, date, description, identity_id, alignment_score, created_at })
    }
}

/// What a behavior log entry is made from.
#[derive(Debug, Clone, PartialEq, Eq)]
pub struct LogBehaviorInput {
    pub date: String,
    pub description: String,
    pub identity_id: i64,
    pub alignment_score: i32,
}

/// Mathematical model of a [`LogBehaviorInput`].
pub struct LogBehaviorInputView {
    pub date: Seq<char>,
    pub description: Seq<char>,
    pub identity_id: i64,
    pub alignment_score: i32,
}

impl View for LogBehaviorInput {
    type V = LogBehaviorInputView;

    open spec fn view(&self) -> LogBehaviorInputView {
        LogBehaviorInputView {
            date: self.date@,
            description: self.description@,
            identity_id: self.identity_id,
            alignment_score: self.alignment_score,
        }
    }
}

impl DeepView for LogBehaviorInput {
    type V = LogBehaviorInputView;

    open spec fn deep_view(&self) -> LogBehaviorInputView {
        self@
    }
}

/// How a behavior is logged: an entry whose score is no alignment score is
/// refused before the store is asked for anything; any other is inserted and
/// then fetched by the row id of the insert.
pub open spec fn log_behavior_plan(input: LogBehaviorInputView) -> StepView {
    if is_score(input.alignment_score) {
        execute(
            StatementView::InsertBehavior {
                date: input.date,
                description: input.description,
                identity_id: input.identity_id,
                alignment_score: input.alignment_score,
            },
            PendingView::Inserted(Entity::Behavior),
        )
    } else {
        failed(FailureView::ScoreOutOfRange)
    }
}

/// Logs a behavior.
pub fn log_behavior(input: LogBehaviorInput) -> (step: Step)
    ensures
        step@ == log_behavior_plan(input@),
        !is_score(input.alignment_score) ==> step@ == failed(FailureView::ScoreOutOfRange),
        step is Perform ==> is_score(input.alignment_score),
{
    if !valid_score(input.alignment_score) {
        return Step::Done(Err(Failure::ScoreOutOfRange));
    }
    Step::Perform {
        action: Action::Execute(
            Statement::InsertBehavior {
                date: input.date,
                description: input.description,
                identity_id: input.identity_id,
                alignment_score: input.alignment_score,
            },
        ),
        then: Pending::Inserted(Entity::Behavior),
    }
}

/// Lists the behaviors of identity `identity_id` on the day `date`, oldest first.
pub fn get_behaviors_for_date(identity_id: i64, date: String) -> (step: Step)
    ensures
        step@ == fetch(QueryView::BehaviorsOnDate { identity_id, date: date@ }, Shape::Behaviors),
{
    Step::Perform {
        action: Action::Fetch(Query::BehaviorsOnDate { identity_id, date }),
        then: Pending::Rows(Shape::Behaviors),
    }
}

/// The query for the behaviors of identity `identity_id` from `from_date` to
/// `to_date`.
pub open spec fn behaviors_query(
    identity_id: i64,
    from_date: Option<Seq<char>>,
    to_date: Option<Seq<char>>,
) -> QueryView {
    QueryView::BehaviorsOfIdentity { identity_id, from_date, to_date }
}

/// Lists the behaviors of identity `identity_id` from `from_date` to
/// `to_date`, each bound included and open when left out: latest day first,
/// and within a day oldest first. Which bounds are given decides the text of
/// the query, and only a bound that is given is bound to it.
pub fn list_behaviors_for_identity(
    identity_id: i64,
    from_date: Option<String>,
    to_date: Option<String>,
) -> (step: Step)
    ensures
        step@ == fetch(
            behaviors_query(identity_id, from_date.deep_view(), to_date.deep_view()),
            Shape::Behaviors,
        ),
        step@ matches StepView::Perform { action: ActionView::Fetch(query), .. } && {
            &&& query.sql() == behaviors_sql(from_date is Some, to_date is Some)
            &&& query.params() == seq![SqlValueView::Integer(identity_id)] + bound(
                from_date.deep_view(),
            ) + bound(to_date.deep_view())
        },
{
    Step::Perform {
        action: Action::Fetch(Query::BehaviorsOfIdentity { identity_id, from_date, to_date }),
        then: Pending::Rows(Shape::Behaviors),
    }
}

} // verus!
