//! Traits: the named attributes that describe an identity.

use vstd::prelude::*;
use crate::failure::{Failure, FailureView};
use crate::protocol::{execute, fetch, Action, Entity, Pending, PendingView, Shape, Step};
use crate::record::Record;
use crate::statement::{Query, QueryView, Statement, StatementView};
use crate::value::{integer_at, integer_in, text_at, text_in, RowView, SqlValue};

verus! {

/// A trait as stored.
#[derive(Debug, Clone, PartialEq, Eq)]
pub struct Trait {
    pub id: i64,
    pub name: String,
    pub identity_id: i64,
    pub created_at: String,
}

/// Mathematical model of a [`Trait`].
pub struct TraitView {
    pub id: i64,
    pub name: Seq<char>,
    pub identity_id: i64,
    pub created_at: Seq<char>,
}

impl View for Trait {
    type V = TraitView;

    open spec fn view(&self) -> TraitView {
        TraitView {
            id: self.id,
            name: self.name@,
            identity_id: self.identity_id,
            created_at: self.created_at@,
        }
    }
}

impl DeepView for Trait {
    type V = TraitView;

    open spec fn deep_view(&self) -> TraitView {
        self@
    }
}

impl Record for Trait {
    /// Columns: `id`, `name`, `identity_id`, `created_at`.
    open spec fn of_row(row: RowView) -> Result<TraitView, FailureView> {
        match integer_in(row, 0) {
            Err(failure) => Err(failure),
            Ok(id) => match text_in(row, 1) {
                Err(failure) => Err(failure),
                Ok(name) => match integer_in(row, 2) {
                    Err(failure) => Err(failure),
                    Ok(identity_id) => match text_in(row, 3) {
                        Err(failure) => Err(failure),
                        Ok(created_at) => Ok(TraitView { id, name, identity_id, created_at }),
                    },
                },
            },
        }
    }

    fn from_row(row: &Vec<SqlValue>) -> (r: Result<Trait, Failure>) {
        let id = integer_at(row, 0)?;
        let name = text_at(row, 1)?;
        let identity_id = integer_at(row, 2)?;
        let created_at = text_at(row, 3)?;
        Ok(Trait { id, name, identity_id, created_at })
    }
}

/// Gives identity `identity_id` a trait named `name`: inserts the row, then
/// fetches it by the row id of the insert.
pub fn create_trait(identity_id: i64, name: String) -> (step: Step)
    ensures
        step@ == execute(
            StatementView::InsertTrait { name: name@, identity_id },
            PendingView::Inserted(Entity::Trait),
        ),
{
    Step::Perform {
        action: Action::Execute(Statement::InsertTrait { name, identity_id }),
        then: Pending::Inserted(Entity::Trait),
    }
}

/// Lists the traits of identity `identity_id`, oldest first.
pub fn list_traits(identity_id: i64) -> (step: Step)
    ensures
        step@ == fetch(QueryView::TraitsOfIdentity { identity_id }, Shape::Traits),
{
    Step::Perform {
        action: Action::Fetch(Query::TraitsOfIdentity { identity_id }),
        then: Pending::Rows(Shape::Traits),
    }
}

/// Deletes trait `id`. Whether there was such a trait is not asked: the
/// command is done once the statement ran.
pub fn delete_trait(id: i64) -> (step: Step)
    ensures
        step@ == execute(StatementView::DeleteTrait { id }, PendingView::Written),
{
    Step::Perform { action: Action::Execute(Statement::DeleteTrait { id }), then: Pending::Written }
}

} // verus!
