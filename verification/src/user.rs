//! The user: the root of everything that is tracked.

use vstd::prelude::*;
use crate::failure::{Failure, FailureView};
use crate::protocol::{execute, fetch, Action, Entity, Pending, PendingView, Shape, Step};
use crate::record::Record;
use crate::statement::{Query, QueryView, Statement, StatementView};
use crate::value::{integer_at, integer_in, text_at, text_in, RowView, SqlValue};

verus! {

/// A user as stored.
#[derive(Debug, Clone, PartialEq, Eq)]
pub struct User {
    pub id: i64,
    pub name: String,
    pub created_at: String,
}

/// Mathematical model of a [`User`].
pub struct UserView {
    pub id: i64,
    pub name: Seq<char>,
    pub created_at: Seq<char>,
}

impl View for User {
    type V = UserView;

    open spec fn view(&self) -> UserView {
        UserView { id: self.id, name: self.name@, created_at: self.created_at@ }
    }
}

impl DeepView for User {
    type V = UserView;

    open spec fn deep_view(&self) -> UserView {
        self@
    }
}

impl Record for User {
    /// Columns: `id`, `name`, `created_at`.
    open spec fn of_row(row: RowView) -> Result<UserView, FailureView> {
        match integer_in(row, 0) {
            Err(failure) => Err(failure),
            Ok(id) => match text_in(row, 1) {
                Err(failure) => Err(failure),
                Ok(name) => match text_in(row, 2) {
                    Err(failure) => Err(failure),
                    Ok(created_at) => Ok(UserView { id, name, created_at }),
                },
            },
        }
    }

    fn from_row(row: &Vec<SqlValue>) -> (r: Result<User, Failure>) {
        let id = integer_at(row, 0)?;
        let name = text_at(row, 1)?;
        let created_at = text_at(row, 2)?;
        Ok(User { id, name, created_at })
    }
}

/// Creates a user named `name`: inserts the row, then fetches it by the row
/// id of the insert.
pub fn create_user(name: String) -> (step: Step)
    ensures
        step@ == execute(
            StatementView::InsertUser { name: name@ },
            PendingView::Inserted(Entity::User),
        ),
{
    Step::Perform {
        action: Action::Execute(Statement::InsertUser { name }),
        then: Pending::Inserted(Entity::User),
    }
}

/// Looks up the current user: the one created last, if there is any.
pub fn get_user() -> (step: Step)
    ensures
        step@ == fetch(QueryView::LatestUser, Shape::MaybeUser),
{
    Step::Perform {
        action: Action::Fetch(Query::LatestUser),
        then: Pending::Rows(Shape::MaybeUser),
    }
}

} // verus!
