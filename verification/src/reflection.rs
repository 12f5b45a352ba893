//! Daily reflections: one generated summary per identity and day.

use vstd::prelude::*;
use crate::failure::{Failure, FailureView};
use crate::completion::{compose_request, reflection_request};
use crate::protocol::{
    failed, fetch, Action, ActionView, Pending, PendingView, Shape, Step, StepView,
};
use crate::record::Record;
use crate::statement::{Query, QueryView};
use crate::value::{integer_at, integer_in, text_at, text_in, RowView, SqlValue};

verus! {

/// The number of reflections that is listed when no limit is given.
pub const DEFAULT_REFLECTION_LIMIT: i32 = 30;

/// A daily reflection as stored. Its content is what the model answered, kept
/// as text: nothing here reads it as JSON.
#[derive(Debug, Clone, PartialEq, Eq)]
pub struct DailyReflection {
    pub id: i64,
    pub date: String,
    pub content: String,
    pub identity_id: i64,
    pub created_at: String,
}

/// Mathematical model of a [`DailyReflection`].
pub struct DailyReflectionView {
    pub id: i64,
    pub date: Seq<char>,
    pub content: Seq<char>,
    pub identity_id: i64,
    pub created_at: Seq<char>,
}

impl View for DailyReflection {
    type V = DailyReflectionView;

    open spec fn view(&self) -> DailyReflectionView {
        DailyReflectionView {
            id: self.id,
            date: self.date@,
            content: self.content@,
            identity_id: self.identity_id,
            created_at: self.created_at@,
        }
    }
}

impl DeepView for DailyReflection {
    type V = DailyReflectionView;

    open spec fn deep_view(&self) -> DailyReflectionView {
        self@
    }
}

impl Record for DailyReflection {
    /// Columns: `id`, `date`, `content`, `identity_id`, `created_at`.
    open spec fn of_row(row: RowView) -> Result<DailyReflectionView, FailureView> {
        match integer_in(row, 0) {
            Err(failure) => Err(failure),
            Ok(id) => match text_in(row, 1) {
                Err(failure) => Err(failure),
                Ok(date) => match text_in(row, 2) {
                    Err(failure) => Err(failure),
                    Ok(content) => match integer_in(row, 3) {
                        Err(failure) => Err(failure),
                        Ok(identity_id) => match text_in(row, 4) {
                            Err(failure) => Err(failure),
                            Ok(created_at) => Ok(
                                DailyReflectionView { id, date, content, identity_id, created_at },
                            ),
                        },
                    },
                },
            },
        }
    }

    fn from_row(row: &Vec<SqlValue>) -> (r: Result<DailyReflection, Failure>) {
        let id = integer_at(row, 0)?;
        let date = text_at(row, 1)?;
        let content = text_at(row, 2)?;
        let identity_id = integer_at(row, 3)?;
        let created_at = text_at(row, 4)?;
        Ok(DailyReflection { id, date, content, identity_id, created_at })
    }
}

/// One behavior of the day, as the reflection is told of it.
#[derive(Debug, Clone, PartialEq, Eq)]
pub struct BehaviorForReflection {
    pub description: String,
    pub alignment_score: i32,
}

/// Mathematical model of a [`BehaviorForReflection`].
pub struct BehaviorForReflectionView {
    pub description: Seq<char>,
    pub alignment_score: i32,
}

impl View for BehaviorForReflection {
    type V = BehaviorForReflectionView;

    open spec fn view(&self) -> BehaviorForReflectionView {
        BehaviorForReflectionView {
            description: self.description@,
            alignment_score: self.alignment_score,
        }
    }
}

impl DeepView for BehaviorForReflection {
    type V = BehaviorForReflectionView;

    open spec fn deep_view(&self) -> BehaviorForReflectionView {
        self@
    }
}

/// What a reflection is generated from: the identity, its traits and the
/// day's behaviors.
#[derive(Debug, Clone, PartialEq, Eq)]
pub struct ReflectionInput {
    pub identity_id: i64,
    pub date: String,
    pub identity_name: String,
    pub identity_description: String,
    pub traits: Vec<String>,
    pub behaviors: Vec<BehaviorForReflection>,
}

/// Mathematical model of a [`ReflectionInput`].
pub struct ReflectionInputView {
    pub identity_id: i64,
    pub date: Seq<char>,
    pub identity_name: Seq<char>,
    pub identity_description: Seq<char>,
    pub traits: Seq<Seq<char>>,
    pub behaviors: Seq<BehaviorForReflectionView>,
}

impl View for ReflectionInput {
    type V = ReflectionInputView;

    open spec fn view(&self) -> ReflectionInputView {
        ReflectionInputView {
            identity_id: self.identity_id,
            date: self.date@,
            identity_name: self.identity_name@,
            identity_description: self.identity_description@,
            traits: self.traits.deep_view(),
            behaviors: self.behaviors.deep_view(),
        }
    }
}

impl DeepView for ReflectionInput {
    type V = ReflectionInputView;

    open spec fn deep_view(&self) -> ReflectionInputView {
        self@
    }
}

/// The limit that is asked for: the one given, or the default.
pub open spec fn reflection_limit(limit: Option<i32>) -> i32 {
    match limit {
        Some(limit) => limit,
        None => DEFAULT_REFLECTION_LIMIT,
    }
}

/// How a reflection is generated: without a credential nothing is asked of
/// anyone; with one, the completion API is asked first, and the store only
/// once it has answered.
pub open spec fn generate_reflection_plan(
    api_key: Seq<char>,
    input: ReflectionInputView,
) -> StepView {
    if api_key.len() == 0 {
        failed(FailureView::MissingApiKey)
    } else {
        StepView::Perform {
            action: ActionView::Complete(reflection_request(api_key, input)),
            then: PendingView::Completion { date: input.date, identity_id: input.identity_id },
        }
    }
}

/// Generates the reflection of `input`'s day and stores it in place of the
/// one that the day had.
pub fn generate_reflection(api_key: String, input: ReflectionInput) -> (step: Step)
    ensures
        step@ == generate_reflection_plan(api_key@, input@),
        api_key@.len() == 0 ==> step@ == failed(FailureView::MissingApiKey),
{
    if api_key.as_str().is_empty() {
        return Step::Done(Err(Failure::MissingApiKey));
    }
    let request = compose_request(api_key.as_str(), &input);
    Step::Perform {
        action: Action::Complete(request),
        then: Pending::Completion { date: input.date, identity_id: input.identity_id },
    }
}

/// Looks up the reflection of identity `identity_id` for the day `date`.
pub fn get_reflection_for_date(identity_id: i64, date: String) -> (step: Step)
    ensures
        step@ == fetch(
            QueryView::ReflectionOnDate { identity_id, date: date@ },
            Shape::MaybeReflection,
        ),
{
    Step::Perform {
        action: Action::Fetch(Query::ReflectionOnDate { identity_id, date }),
        then: Pending::Rows(Shape::MaybeReflection),
    }
}

/// Lists the reflections of identity `identity_id`, latest day first:
/// `limit` of them at most, 30 where `limit` is left out.
pub fn list_reflections(identity_id: i64, limit: Option<i32>) -> (step: Step)
    ensures
        step@ == fetch(
            QueryView::ReflectionsOfIdentity { identity_id, limit: reflection_limit(limit) },
            Shape::Reflections,
        ),
{
    let limit = match limit {
        Some(limit) => limit,
        None => DEFAULT_REFLECTION_LIMIT,
    };
    Step::Perform {
        action: Action::Fetch(Query::ReflectionsOfIdentity { identity_id, limit }),
        then: Pending::Rows(Shape::Reflections),
    }
}

} // verus!
