//! Identities: what a user wants to be consistent with.

use vstd::prelude::*;
use crate::failure::{Failure, FailureView};
use crate::protocol::{
    execute, fetch, Action, Entity, Pending, PendingView, Shape, Step, StepView,
};
use crate::record::Record;
use crate::statement::{Query, QueryView, Statement, StatementView};
use crate::value::{integer_at, integer_in, text_at, text_in, RowView, SqlValue};

verus! {

/// An identity as stored.
#[derive(Debug, Clone, PartialEq, Eq)]
pub struct Identity {
    pub id: i64,
    pub name: String,
    pub description: String,
    pub user_id: i64,
    pub created_at: String,
}

/// Mathematical model of an [`Identity`].
pub struct IdentityView {
    pub id: i64,
    pub name: Seq<char>,
    pub description: Seq<char>,
    pub user_id: i64,
    pub created_at: Seq<char>,
}

impl View for Identity {
    type V = IdentityView;

    open spec fn view(&self) -> IdentityView {
        IdentityView {
            id: self.id,
            name: self.name@,
            description: self.description@,
            user_id: self.user_id,
            created_at: self.created_at@,
        }
    }
}

impl DeepView for Identity {
    type V = IdentityView;

    open spec fn deep_view(&self) -> IdentityView {
        self@
    }
}

impl Record for Identity {
    /// Columns: `id`, `name`, `description`, `user_id`, `created_at`.
    open spec fn of_row(row: RowView) -> Result<IdentityView, FailureView> {
        match integer_in(row, 0) {
            Err(failure) => Err(failure),
            Ok(id) => match text_in(row, 1) {
                Err(failure) => Err(failure),
                Ok(name) => match text_in(row, 2) {
                    Err(failure) => Err(failure),
                    Ok(description) => match integer_in(row, 3) {
                        Err(failure) => Err(failure),
                        Ok(user_id) => match text_in(row, 4) {
                            Err(failure) => Err(failure),
                            Ok(created_at) => Ok(
                                IdentityView { id, name, description, user_id, created_at },
                            ),
                        },
                    },
                },
            },
        }
    }

    fn from_row(row: &Vec<SqlValue>) -> (r: Result<Identity, Failure>) {
        let id = integer_at(row, 0)?;
        let name = text_at(row, 1)?;
        let description = text_at(row, 2)?;
        let user_id = integer_at(row, 3)?;
        let created_at = text_at(row, 4)?;
        Ok(Identity { id, name, description, user_id, created_at })
    }
}

/// What a new identity is made from. A description that is left out is empty.
#[derive(Debug, Clone, PartialEq, Eq)]
pub struct CreateIdentityInput {
    pub name: String,
    pub description: Option<String>,
}

/// Mathematical model of a [`CreateIdentityInput`].
pub struct CreateIdentityInputView {
    pub name: Seq<char>,
    pub description: Option<Seq<char>>,
}

impl View for CreateIdentityInput {
    type V = CreateIdentityInputView;

    open spec fn view(&self) -> CreateIdentityInputView {
        CreateIdentityInputView { name: self.name@, description: self.description.deep_view() }
    }
}

impl DeepView for CreateIdentityInput {
    type V = CreateIdentityInputView;

    open spec fn deep_view(&self) -> CreateIdentityInputView {
        self@
    }
}

impl CreateIdentityInputView {
    /// The description that is stored: the one given, or the empty text.
    pub open spec fn stored_description(self) -> Seq<char> {
        match self.description {
            Some(text) => text,
            None => Seq::empty(),
        }
    }
}

/// Creates an identity of user `user_id`: inserts the row, then fetches it by
/// the row id of the insert.
pub fn create_identity(user_id: i64, input: CreateIdentityInput) -> (step: Step)
    ensures
        step@ == execute(
            StatementView::InsertIdentity {
                name: input@.name,
                description: input@.stored_description(),
                user_id,
            },
            PendingView::Inserted(Entity::Identity),
        ),
{
    let description = match input.description {
        Some(text) => text,
        None => String::new(),
    };
    Step::Perform {
        action: Action::Execute(
            Statement::InsertIdentity { name: input.name, description, user_id },
        ),
        then: Pending::Inserted(Entity::Identity),
    }
}

/// Lists the identities of user `user_id`, newest first.
pub fn list_identities(user_id: i64) -> (step: Step)
    ensures
        step@ == fetch(QueryView::IdentitiesOfUser { user_id }, Shape::Identities),
{
    Step::Perform {
        action: Action::Fetch(Query::IdentitiesOfUser { user_id }),
        then: Pending::Rows(Shape::Identities),
    }
}

/// Looks up identity `id`.
pub fn get_identity(id: i64) -> (step: Step)
    ensures
        step@ == fetch(QueryView::IdentityById { id }, Shape::MaybeIdentity),
{
    Step::Perform {
        action: Action::Fetch(Query::IdentityById { id }),
        then: Pending::Rows(Shape::MaybeIdentity),
    }
}

/// How identity `id` is updated: each of name and description is written
/// where it is given, the name first, and nothing is written for one left
/// out; then the identity is fetched, and it is a failure if it is not there.
pub open spec fn update_identity_plan(
    id: i64,
    name: Option<Seq<char>>,
    description: Option<Seq<char>>,
) -> StepView {
    match (name, description) {
        (Some(name), _) => execute(
            StatementView::RenameIdentity { id, name },
            PendingView::Renamed { id, description },
        ),
        (None, Some(description)) => execute(
            StatementView::DescribeIdentity { id, description },
            PendingView::Changed { id },
        ),
        (None, None) => fetch(QueryView::IdentityById { id }, Shape::Identity),
    }
}

/// Updates the name, the description, both or neither of identity `id`, and
/// answers with the identity as it then is.
pub fn update_identity(id: i64, name: Option<String>, description: Option<String>) -> (step: Step)
    ensures
        step@ == update_identity_plan(id, name.deep_view(), description.deep_view()),
{
    match (name, description) {
        (Some(name), description) => Step::Perform {
            action: Action::Execute(Statement::RenameIdentity { id, name }),
            then: Pending::Renamed { id, description },
        },
        (None, Some(description)) => Step::Perform {
            action: Action::Execute(Statement::DescribeIdentity { id, description }),
            then: Pending::Changed { id },
        },
        (None, None) => Step::Perform {
            action: Action::Fetch(Query::IdentityById { id }),
            then: Pending::Rows(Shape::Identity),
        },
    }
}

} // verus!
