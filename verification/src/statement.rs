//! What the store is asked: statements that write and queries that read. Each
//! has its SQL text and its parameters; no value is ever written into the
//! text.

use vstd::prelude::*;
use crate::text::{decimal, decimal_text};
use crate::value::{SqlValue, SqlValueView};

verus! {

/// Text of [`Statement::InsertUser`].
pub const INSERT_USER_SQL: &'static str =
    "INSERT INTO user (name) VALUES (?1)";

/// Text of [`Statement::InsertIdentity`].
pub const INSERT_IDENTITY_SQL: &'static str =
    "INSERT INTO identity (name, description, user_id) VALUES (?1, ?2, ?3)";

/// Text of [`Statement::RenameIdentity`].
pub const RENAME_IDENTITY_SQL: &'static str =
    "UPDATE identity SET name = ?1 WHERE id = ?2";

/// Text of [`Statement::DescribeIdentity`].
pub const DESCRIBE_IDENTITY_SQL: &'static str =
    "UPDATE identity SET description = ?1 WHERE id = ?2";

/// Text of [`Statement::InsertTrait`].
pub const INSERT_TRAIT_SQL: &'static str =
    "INSERT INTO trait (name, identity_id) VALUES (?1, ?2)";

/// Text of [`Statement::DeleteTrait`].
pub const DELETE_TRAIT_SQL: &'static str =
    "DELETE FROM trait WHERE id = ?1";

/// Text of [`Statement::InsertBehavior`].
pub const INSERT_BEHAVIOR_SQL: &'static str =
    "INSERT INTO behavior_log (date, description, identity_id, alignment_score) VALUES (?1, ?2, ?3, ?4)";

/// Text of [`Statement::PutReflection`]: the row of a day and identity takes the
/// place of the one that is there.
pub const PUT_REFLECTION_SQL: &'static str =
    "INSERT OR REPLACE INTO daily_reflection (date, content, identity_id) VALUES (?1, ?2, ?3)";

/// Text of [`Query::LatestUser`].
pub const LATEST_USER_SQL: &'static str =
    "SELECT id, name, created_at FROM user ORDER BY id DESC LIMIT 1";

/// Text of [`Query::UserById`].
pub const USER_BY_ID_SQL: &'static str =
    "SELECT id, name, created_at FROM user WHERE id = ?1";

/// Text of [`Query::IdentityById`].
pub const IDENTITY_BY_ID_SQL: &'static str =
    "SELECT id, name, description, user_id, created_at FROM identity WHERE id = ?1";

/// Text of [`Query::IdentitiesOfUser`].
pub const IDENTITIES_OF_USER_SQL: &'static str =
    "SELECT id, name, description, user_id, created_at FROM identity WHERE user_id = ?1 ORDER BY created_at DESC";

/// Text of [`Query::TraitById`].
pub const TRAIT_BY_ID_SQL: &'static str =
    "SELECT id, name, identity_id, created_at FROM trait WHERE id = ?1";

/// Text of [`Query::TraitsOfIdentity`].
pub const TRAITS_OF_IDENTITY_SQL: &'static str =
    "SELECT id, name, identity_id, created_at FROM trait WHERE identity_id = ?1 ORDER BY created_at";

/// Text of [`Query::BehaviorById`].
pub const BEHAVIOR_BY_ID_SQL: &'static str =
    "SELECT id, date, description, identity_id, alignment_score, created_at FROM behavior_log WHERE id = ?1";

/// Text of [`Query::BehaviorsOnDate`].
pub const BEHAVIORS_ON_DATE_SQL: &'static str =
    "SELECT id, date, description, identity_id, alignment_score, created_at FROM behavior_log WHERE identity_id = ?1 AND date = ?2 ORDER BY created_at";

/// Text of [`Query::BehaviorsOfIdentity`] with both bounds.
pub const BEHAVIORS_BETWEEN_SQL: &'static str =
    "SELECT id, date, description, identity_id, alignment_score, created_at FROM behavior_log WHERE identity_id = ?1 AND date >= ?2 AND date <= ?3 ORDER BY date DESC, created_at";

/// Text of [`Query::BehaviorsOfIdentity`] with the lower bound only.
pub const BEHAVIORS_FROM_SQL: &'static str =
    "SELECT id, date, description, identity_id, alignment_score, created_at FROM behavior_log WHERE identity_id = ?1 AND date >= ?2 ORDER BY date DESC, created_at";

/// Text of [`Query::BehaviorsOfIdentity`] with the upper bound only.
pub const BEHAVIORS_UNTIL_SQL: &'static str =
    "SELECT id, date, description, identity_id, alignment_score, created_at FROM behavior_log WHERE identity_id = ?1 AND date <= ?2 ORDER BY date DESC, created_at";

/// Text of [`Query::BehaviorsOfIdentity`] without bounds.
pub const BEHAVIORS_OF_IDENTITY_SQL: &'static str =
    "SELECT id, date, description, identity_id, alignment_score, created_at FROM behavior_log WHERE identity_id = ?1 ORDER BY date DESC, created_at";

/// Text of [`Query::AlignmentByDay`].
pub const ALIGNMENT_BY_DAY_SQL: &'static str =
    "SELECT date, SUM(alignment_score), COUNT(*) FROM behavior_log WHERE identity_id = ?1 AND date >= ?2 AND date <= ?3 GROUP BY date ORDER BY date";

/// Text of [`Query::AlignmentSince`]. The window is a bound parameter, a
/// modifier of the store's `date('now')`.
pub const ALIGNMENT_SINCE_SQL: &'static str =
    "SELECT date, SUM(alignment_score), COUNT(*) FROM behavior_log WHERE identity_id = ?1 AND date >= date('now', ?2) GROUP BY date ORDER BY date";

/// Text of [`Query::ReflectionById`].
pub const REFLECTION_BY_ID_SQL: &'static str =
    "SELECT id, date, content, identity_id, created_at FROM daily_reflection WHERE id = ?1";

/// Text of [`Query::ReflectionOnDate`].
pub const REFLECTION_ON_DATE_SQL: &'static str =
    "SELECT id, date, content, identity_id, created_at FROM daily_reflection WHERE identity_id = ?1 AND date = ?2";

/// Text of [`Query::ReflectionsOfIdentity`].
pub const REFLECTIONS_OF_IDENTITY_SQL: &'static str =
    "SELECT id, date, content, identity_id, created_at FROM daily_reflection WHERE identity_id = ?1 ORDER BY date DESC LIMIT ?2";

/// A statement that changes the store. The host reports the row id of the
/// last insert after running it.
#[derive(Debug, Clone, PartialEq, Eq)]
pub enum Statement {
    InsertUser { name: String },
    InsertIdentity { name: String, description: String, user_id: i64 },
    RenameIdentity { id: i64, name: String },
    DescribeIdentity { id: i64, description: String },
    InsertTrait { name: String, identity_id: i64 },
    DeleteTrait { id: i64 },
    InsertBehavior { date: String, description: String, identity_id: i64, alignment_score: i32 },
    /// Stores the reflection of a day, in place of the one that the day had.
    PutReflection { date: String, content: String, identity_id: i64 },
}

/// Mathematical model of a [`Statement`].
pub enum StatementView {
    InsertUser { name: Seq<char> },
    InsertIdentity { name: Seq<char>, description: Seq<char>, user_id: i64 },
    RenameIdentity { id: i64, name: Seq<char> },
    DescribeIdentity { id: i64, description: Seq<char> },
    InsertTrait { name: Seq<char>, identity_id: i64 },
    DeleteTrait { id: i64 },
    InsertBehavior {
        date: Seq<char>,
        description: Seq<char>,
        identity_id: i64,
        alignment_score: i32,
    },
    PutReflection { date: Seq<char>, content: Seq<char>, identity_id: i64 },
}

impl View for Statement {
    type V = StatementView;

    open spec fn view(&self) -> StatementView {
        match self {
            Statement::InsertUser { name } => StatementView::InsertUser { name: name@ },
            Statement::InsertIdentity { name, description, user_id } => {
                StatementView::InsertIdentity {
                    name: name@,
                    description: description@,
                    user_id: *user_id,
                }
            },
            Statement::RenameIdentity { id, name } => StatementView::RenameIdentity {
                id: *id,
                name: name@,
            },
            Statement::DescribeIdentity { id, description } => StatementView::DescribeIdentity {
                id: *id,
                description: description@,
            },
            Statement::InsertTrait { name, identity_id } => StatementView::InsertTrait {
                name: name@,
                identity_id: *identity_id,
            },
            Statement::DeleteTrait { id } => StatementView::DeleteTrait { id: *id },
            Statement::InsertBehavior { date, description, identity_id, alignment_score } => {
                StatementView::InsertBehavior {
                    date: date@,
                    description: description@,
                    identity_id: *identity_id,
                    alignment_score: *alignment_score,
                }
            },
            Statement::PutReflection { date, content, identity_id } => {
                StatementView::PutReflection {
                    date: date@,
                    content: content@,
                    identity_id: *identity_id,
                }
            },
        }
    }
}

impl DeepView for Statement {
    type V = StatementView;

    open spec fn deep_view(&self) -> StatementView {
        self@
    }
}

impl StatementView {
    /// The SQL text of the statement.
    pub open spec fn sql(self) -> Seq<char> {
        match self {
            StatementView::InsertUser { .. } => INSERT_USER_SQL@,
            StatementView::InsertIdentity { .. } =>
                INSERT_IDENTITY_SQL@,
            StatementView::RenameIdentity { .. } => RENAME_IDENTITY_SQL@,
            StatementView::DescribeIdentity { .. } =>
                DESCRIBE_IDENTITY_SQL@,
            StatementView::InsertTrait { .. } =>
                INSERT_TRAIT_SQL@,
            StatementView::DeleteTrait { .. } => DELETE_TRAIT_SQL@,
            StatementView::InsertBehavior { .. } =>
                INSERT_BEHAVIOR_SQL@,
            StatementView::PutReflection { .. } =>
                PUT_REFLECTION_SQL@,
        }
    }

    /// The values bound to `?1`, `?2`, ... of the text, in that order.
    pub open spec fn params(self) -> Seq<SqlValueView> {
        match self {
            StatementView::InsertUser { name } => seq![SqlValueView::Text(name)],
            StatementView::InsertIdentity { name, description, user_id } => seq![
                SqlValueView::Text(name),
                SqlValueView::Text(description),
                SqlValueView::Integer(user_id),
            ],
            StatementView::RenameIdentity { id, name } => seq![
                SqlValueView::Text(name),
                SqlValueView::Integer(id),
            ],
            StatementView::DescribeIdentity { id, description } => seq![
                SqlValueView::Text(description),
                SqlValueView::Integer(id),
            ],
            StatementView::InsertTrait { name, identity_id } => seq![
                SqlValueView::Text(name),
                SqlValueView::Integer(identity_id),
            ],
            StatementView::DeleteTrait { id } => seq![SqlValueView::Integer(id)],
            StatementView::InsertBehavior { date, description, identity_id, alignment_score } => seq![
                SqlValueView::Text(date),
                SqlValueView::Text(description),
                SqlValueView::Integer(identity_id),
                SqlValueView::Integer(alignment_score as i64),
            ],
            StatementView::PutReflection { date, content, identity_id } => seq![
                SqlValueView::Text(date),
                SqlValueView::Text(content),
                SqlValueView::Integer(identity_id),
            ],
        }
    }
}

impl Statement {
    /// The SQL text of the statement.
    pub fn sql(&self) -> (text: &'static str)
        ensures
            text@ == self@.sql(),
    {
        match self {
            Statement::InsertUser { .. } => INSERT_USER_SQL,
            Statement::InsertIdentity { .. } =>
                INSERT_IDENTITY_SQL,
            Statement::RenameIdentity { .. } => RENAME_IDENTITY_SQL,
            Statement::DescribeIdentity { .. } =>
                DESCRIBE_IDENTITY_SQL,
            Statement::InsertTrait { .. } => INSERT_TRAIT_SQL,
            Statement::DeleteTrait { .. } => DELETE_TRAIT_SQL,
            Statement::InsertBehavior { .. } =>
                INSERT_BEHAVIOR_SQL,
            Statement::PutReflection { .. } =>
                PUT_REFLECTION_SQL,
        }
    }

    /// The values bound to `?1`, `?2`, ... of the text, in that order.
    pub fn params(&self) -> (values: Vec<SqlValue>)
        ensures
            values.deep_view() == self@.params(),
    {
        let values = match self {
            Statement::InsertUser { name } => vec![SqlValue::Text(name.clone())],
            Statement::InsertIdentity { name, description, user_id } => vec![
                SqlValue::Text(name.clone()),
                SqlValue::Text(description.clone()),
                SqlValue::Integer(*user_id),
            ],
            Statement::RenameIdentity { id, name } => vec![
                SqlValue::Text(name.clone()),
                SqlValue::Integer(*id),
            ],
            Statement::DescribeIdentity { id, description } => vec![
                SqlValue::Text(description.clone()),
                SqlValue::Integer(*id),
            ],
            Statement::InsertTrait { name, identity_id } => vec![
                SqlValue::Text(name.clone()),
                SqlValue::Integer(*identity_id),
            ],
            Statement::DeleteTrait { id } => vec![SqlValue::Integer(*id)],
            Statement::InsertBehavior { date, description, identity_id, alignment_score } => vec![
                SqlValue::Text(date.clone()),
                SqlValue::Text(description.clone()),
                SqlValue::Integer(*identity_id),
                SqlValue::Integer(*alignment_score as i64),
            ],
            Statement::PutReflection { date, content, identity_id } => vec![
                SqlValue::Text(date.clone()),
                SqlValue::Text(content.clone()),
                SqlValue::Integer(*identity_id),
            ],
        };
        values
    }
}

/// A query: it reads rows and changes nothing.
#[derive(Debug, Clone, PartialEq, Eq)]
#[allow(inconsistent_fields)]
pub enum Query {
    /// The user with the greatest id, if there is a user.
    LatestUser,
    UserById { id: i64 },
    IdentityById { id: i64 },
    /// The identities of a user, newest first.
    IdentitiesOfUser { user_id: i64 },
    TraitById { id: i64 },
    /// The traits of an identity, oldest first.
    TraitsOfIdentity { identity_id: i64 },
    BehaviorById { id: i64 },
    /// The behaviors of an identity on one day, oldest first.
    BehaviorsOnDate { identity_id: i64, date: String },
    /// The behaviors of an identity from `from_date` to `to_date`, both
    /// included and each open when left out: latest day first, and within a
    /// day oldest first.
    BehaviorsOfIdentity { identity_id: i64, from_date: Option<String>, to_date: Option<String> },
    /// Per day from `from_date` to `to_date`: the sum and number of scores,
    /// earliest day first.
    AlignmentByDay { identity_id: i64, from_date: String, to_date: String },
    /// Per day of the last `days` days by the store's clock: the sum and
    /// number of scores, earliest day first.
    AlignmentSince { identity_id: i64, days: i32 },
    ReflectionById { id: i64 },
    ReflectionOnDate { identity_id: i64, date: String },
    /// The reflections of an identity, latest day first, `limit` at most.
    ReflectionsOfIdentity { identity_id: i64, limit: i32 },
}

/// Mathematical model of a [`Query`].
#[allow(inconsistent_fields)]
pub enum QueryView {
    LatestUser,
    UserById { id: i64 },
    IdentityById { id: i64 },
    IdentitiesOfUser { user_id: i64 },
    TraitById { id: i64 },
    TraitsOfIdentity { identity_id: i64 },
    BehaviorById { id: i64 },
    BehaviorsOnDate { identity_id: i64, date: Seq<char> },
    BehaviorsOfIdentity {
        identity_id: i64,
        from_date: Option<Seq<char>>,
        to_date: Option<Seq<char>>,
    },
    AlignmentByDay { identity_id: i64, from_date: Seq<char>, to_date: Seq<char> },
    AlignmentSince { identity_id: i64, days: i32 },
    ReflectionById { id: i64 },
    ReflectionOnDate { identity_id: i64, date: Seq<char> },
    ReflectionsOfIdentity { identity_id: i64, limit: i32 },
}

impl View for Query {
    type V = QueryView;

    open spec fn view(&self) -> QueryView {
        match self {
            Query::LatestUser => QueryView::LatestUser,
            Query::UserById { id } => QueryView::UserById { id: *id },
            Query::IdentityById { id } => QueryView::IdentityById { id: *id },
            Query::IdentitiesOfUser { user_id } => QueryView::IdentitiesOfUser {
                user_id: *user_id,
            },
            Query::TraitById { id } => QueryView::TraitById { id: *id },
            Query::TraitsOfIdentity { identity_id } => QueryView::TraitsOfIdentity {
                identity_id: *identity_id,
            },
            Query::BehaviorById { id } => QueryView::BehaviorById { id: *id },
            Query::BehaviorsOnDate { identity_id, date } => QueryView::BehaviorsOnDate {
                identity_id: *identity_id,
                date: date@,
            },
            Query::BehaviorsOfIdentity { identity_id, from_date, to_date } => {
                QueryView::BehaviorsOfIdentity {
                    identity_id: *identity_id,
                    from_date: from_date.deep_view(),
                    to_date: to_date.deep_view(),
                }
            },
            Query::AlignmentByDay { identity_id, from_date, to_date } => {
                QueryView::AlignmentByDay {
                    identity_id: *identity_id,
                    from_date: from_date@,
                    to_date: to_date@,
                }
            },
            Query::AlignmentSince { identity_id, days } => QueryView::AlignmentSince {
                identity_id: *identity_id,
                days: *days,
            },
            Query::ReflectionById { id } => QueryView::ReflectionById { id: *id },
            Query::ReflectionOnDate { identity_id, date } => QueryView::ReflectionOnDate {
                identity_id: *identity_id,
                date: date@,
            },
            Query::ReflectionsOfIdentity { identity_id, limit } => {
                QueryView::ReflectionsOfIdentity { identity_id: *identity_id, limit: *limit }
            },
        }
    }
}

impl DeepView for Query {
    type V = QueryView;

    open spec fn deep_view(&self) -> QueryView {
        self@
    }
}

/// The modifier that moves the store's `date('now')` back by `days` days.
pub open spec fn days_back(days: i32) -> Seq<char> {
    "-"@ + decimal(days as int) + " days"@
}

/// The modifier that moves the store's `date('now')` back by `days` days.
pub fn days_back_text(days: i32) -> (text: String)
    ensures
        text@ == days_back(days),
{
    let mut text = "-".to_string();
    text.append(decimal_text(days as i64).as_str());
    text.append(" days");
    text
}

impl QueryView {
    /// The SQL text of the query.
    pub open spec fn sql(self) -> Seq<char> {
        match self {
            QueryView::LatestUser => LATEST_USER_SQL@,
            QueryView::UserById { .. } => USER_BY_ID_SQL@,
            QueryView::IdentityById { .. } =>
                IDENTITY_BY_ID_SQL@,
            QueryView::IdentitiesOfUser { .. } =>
                IDENTITIES_OF_USER_SQL@,
            QueryView::TraitById { .. } =>
                TRAIT_BY_ID_SQL@,
            QueryView::TraitsOfIdentity { .. } =>
                TRAITS_OF_IDENTITY_SQL@,
            QueryView::BehaviorById { .. } =>
                BEHAVIOR_BY_ID_SQL@,
            QueryView::BehaviorsOnDate { .. } =>
                BEHAVIORS_ON_DATE_SQL@,
            QueryView::BehaviorsOfIdentity { from_date, to_date, .. } => behaviors_sql(
                from_date is Some,
                to_date is Some,
            ),
            QueryView::AlignmentByDay { .. } =>
                ALIGNMENT_BY_DAY_SQL@,
            QueryView::AlignmentSince { .. } =>
                ALIGNMENT_SINCE_SQL@,
            QueryView::ReflectionById { .. } =>
                REFLECTION_BY_ID_SQL@,
            QueryView::ReflectionOnDate { .. } =>
                REFLECTION_ON_DATE_SQL@,
            QueryView::ReflectionsOfIdentity { .. } =>
                REFLECTIONS_OF_IDENTITY_SQL@,
        }
    }

    /// The values bound to `?1`, `?2`, ... of the text, in that order. A date
    /// bound that is left out binds nothing.
    pub open spec fn params(self) -> Seq<SqlValueView> {
        match self {
            QueryView::LatestUser => Seq::empty(),
            QueryView::UserById { id } => seq![SqlValueView::Integer(id)],
            QueryView::IdentityById { id } => seq![SqlValueView::Integer(id)],
            QueryView::IdentitiesOfUser { user_id } => seq![SqlValueView::Integer(user_id)],
            QueryView::TraitById { id } => seq![SqlValueView::Integer(id)],
            QueryView::TraitsOfIdentity { identity_id } => seq![SqlValueView::Integer(identity_id)],
            QueryView::BehaviorById { id } => seq![SqlValueView::Integer(id)],
            QueryView::BehaviorsOnDate { identity_id, date } => seq![
                SqlValueView::Integer(identity_id),
                SqlValueView::Text(date),
            ],
            QueryView::BehaviorsOfIdentity { identity_id, from_date, to_date } => {
                seq![SqlValueView::Integer(identity_id)] + bound(from_date) + bound(to_date)
            },
            QueryView::AlignmentByDay { identity_id, from_date, to_date } => seq![
                SqlValueView::Integer(identity_id),
                SqlValueView::Text(from_date),
                SqlValueView::Text(to_date),
            ],
            QueryView::AlignmentSince { identity_id, days } => seq![
                SqlValueView::Integer(identity_id),
                SqlValueView::Text(days_back(days)),
            ],
            QueryView::ReflectionById { id } => seq![SqlValueView::Integer(id)],
            QueryView::ReflectionOnDate { identity_id, date } => seq![
                SqlValueView::Integer(identity_id),
                SqlValueView::Text(date),
            ],
            QueryView::ReflectionsOfIdentity { identity_id, limit } => seq![
                SqlValueView::Integer(identity_id),
                SqlValueView::Integer(limit as i64),
            ],
        }
    }
}

/// The text that lists the behaviors of an identity, for each choice of date
/// bounds: with a lower bound or without, with an upper bound or without.
pub open spec fn behaviors_sql(lower: bool, upper: bool) -> Seq<char> {
    if lower && upper {
        BEHAVIORS_BETWEEN_SQL@
    } else if lower {
        BEHAVIORS_FROM_SQL@
    } else if upper {
        BEHAVIORS_UNTIL_SQL@
    } else {
        BEHAVIORS_OF_IDENTITY_SQL@
    }
}

/// The parameter of a date bound: its text, or nothing when it is left out.
pub open spec fn bound(date: Option<Seq<char>>) -> Seq<SqlValueView> {
    match date {
        Some(text) => seq![SqlValueView::Text(text)],
        None => Seq::empty(),
    }
}

impl Query {
    /// The SQL text of the query.
    pub fn sql(&self) -> (text: &'static str)
        ensures
            text@ == self@.sql(),
    {
        match self {
            Query::LatestUser => LATEST_USER_SQL,
            Query::UserById { .. } => USER_BY_ID_SQL,
            Query::IdentityById { .. } =>
                IDENTITY_BY_ID_SQL,
            Query::IdentitiesOfUser { .. } =>
                IDENTITIES_OF_USER_SQL,
            Query::TraitById { .. } =>
                TRAIT_BY_ID_SQL,
            Query::TraitsOfIdentity { .. } =>
                TRAITS_OF_IDENTITY_SQL,
            Query::BehaviorById { .. } =>
                BEHAVIOR_BY_ID_SQL,
            Query::BehaviorsOnDate { .. } =>
                BEHAVIORS_ON_DATE_SQL,
            Query::BehaviorsOfIdentity { from_date, to_date, .. } => {
                match (from_date, to_date) {
                    (Some(_), Some(_)) =>
                        BEHAVIORS_BETWEEN_SQL,
                    (Some(_), None) =>
                        BEHAVIORS_FROM_SQL,
                    (None, Some(_)) =>
                        BEHAVIORS_UNTIL_SQL,
                    (None, None) =>
                        BEHAVIORS_OF_IDENTITY_SQL,
                }
            },
            Query::AlignmentByDay { .. } =>
                ALIGNMENT_BY_DAY_SQL,
            Query::AlignmentSince { .. } =>
                ALIGNMENT_SINCE_SQL,
            Query::ReflectionById { .. } =>
                REFLECTION_BY_ID_SQL,
            Query::ReflectionOnDate { .. } =>
                REFLECTION_ON_DATE_SQL,
            Query::ReflectionsOfIdentity { .. } =>
                REFLECTIONS_OF_IDENTITY_SQL,
        }
    }

    /// The values bound to `?1`, `?2`, ... of the text, in that order.
    pub fn params(&self) -> (values: Vec<SqlValue>)
        ensures
            values.deep_view() == self@.params(),
    {
        let values = match self {
            Query::LatestUser => Vec::new(),
            Query::UserById { id } => vec![SqlValue::Integer(*id)],
            Query::IdentityById { id } => vec![SqlValue::Integer(*id)],
            Query::IdentitiesOfUser { user_id } => vec![SqlValue::Integer(*user_id)],
            Query::TraitById { id } => vec![SqlValue::Integer(*id)],
            Query::TraitsOfIdentity { identity_id } => vec![SqlValue::Integer(*identity_id)],
            Query::BehaviorById { id } => vec![SqlValue::Integer(*id)],
            Query::BehaviorsOnDate { identity_id, date } => vec![
                SqlValue::Integer(*identity_id),
                SqlValue::Text(date.clone()),
            ],
            Query::BehaviorsOfIdentity { identity_id, from_date, to_date } => {
                let mut values = vec![SqlValue::Integer(*identity_id)];
                if let Some(date) = from_date {
                    values.push(SqlValue::Text(date.clone()));
                }
                if let Some(date) = to_date {
                    values.push(SqlValue::Text(date.clone()));
                }
                values
            },
            Query::AlignmentByDay { identity_id, from_date, to_date } => vec![
                SqlValue::Integer(*identity_id),
                SqlValue::Text(from_date.clone()),
                SqlValue::Text(to_date.clone()),
            ],
            Query::AlignmentSince { identity_id, days } => vec![
                SqlValue::Integer(*identity_id),
                SqlValue::Text(days_back_text(*days)),
            ],
            Query::ReflectionById { id } => vec![SqlValue::Integer(*id)],
            Query::ReflectionOnDate { identity_id, date } => vec![
                SqlValue::Integer(*identity_id),
                SqlValue::Text(date.clone()),
            ],
            Query::ReflectionsOfIdentity { identity_id, limit } => vec![
                SqlValue::Integer(*identity_id),
                SqlValue::Integer(*limit as i64),
            ],
        };
        values
    }
}

} // verus!
