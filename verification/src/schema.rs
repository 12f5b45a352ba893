//! The database: where it lives and how it is set up.

use vstd::prelude::*;
use crate::protocol::{Action, ActionView, Pending, PendingView, Step, StepView};

verus! {

/// The name of the database file inside the application's data directory.
pub const DATABASE_FILE: &'static str = "identity_habit.db";

/// Turns on write-ahead logging.
pub const JOURNAL_MODE_SQL: &'static str = "PRAGMA journal_mode = WAL;";

/// Creates every table and index that is missing. Traits, behavior logs and
/// daily reflections go when their identity goes; a day has one reflection
/// per identity; a stored score is one of 1 to 10.
pub const SCHEMA_SQL: &'static str = "
CREATE TABLE IF NOT EXISTS user (
    id INTEGER PRIMARY KEY,
    name TEXT NOT NULL,
    created_at TEXT NOT NULL DEFAULT (datetime('now'))
);

CREATE TABLE IF NOT EXISTS identity (
    id INTEGER PRIMARY KEY AUTOINCREMENT,
    name TEXT NOT NULL,
    description TEXT NOT NULL DEFAULT '',
    user_id INTEGER NOT NULL,
    created_at TEXT NOT NULL DEFAULT (datetime('now')),
    FOREIGN KEY (user_id) REFERENCES user(id)
);

CREATE TABLE IF NOT EXISTS trait (
    id INTEGER PRIMARY KEY AUTOINCREMENT,
    name TEXT NOT NULL,
    identity_id INTEGER NOT NULL,
    created_at TEXT NOT NULL DEFAULT (datetime('now')),
    FOREIGN KEY (identity_id) REFERENCES identity(id) ON DELETE CASCADE
);

CREATE TABLE IF NOT EXISTS behavior_log (
    id INTEGER PRIMARY KEY AUTOINCREMENT,
    date TEXT NOT NULL,
    description TEXT NOT NULL,
    identity_id INTEGER NOT NULL,
    alignment_score INTEGER NOT NULL CHECK (alignment_score >= 1 AND alignment_score <= 10),
    created_at TEXT NOT NULL DEFAULT (datetime('now')),
    FOREIGN KEY (identity_id) REFERENCES identity(id) ON DELETE CASCADE
);

CREATE TABLE IF NOT EXISTS daily_reflection (
    id INTEGER PRIMARY KEY AUTOINCREMENT,
    date TEXT NOT NULL,
    content TEXT NOT NULL,
    identity_id INTEGER NOT NULL,
    created_at TEXT NOT NULL DEFAULT (datetime('now')),
    UNIQUE(date, identity_id),
    FOREIGN KEY (identity_id) REFERENCES identity(id) ON DELETE CASCADE
);

CREATE INDEX IF NOT EXISTS idx_behavior_date ON behavior_log(date);
CREATE INDEX IF NOT EXISTS idx_behavior_identity ON behavior_log(identity_id);
CREATE INDEX IF NOT EXISTS idx_reflection_date ON daily_reflection(date);
CREATE INDEX IF NOT EXISTS idx_reflection_identity ON daily_reflection(identity_id);
";

/// A script: statements run one after the other, none of which reports anything.
#[derive(Debug, Clone, Copy, PartialEq, Eq)]
pub enum Script {
    JournalMode,
    Schema,
}

impl Script {
    /// The SQL text of the script.
    pub open spec fn text(self) -> Seq<char> {
        match self {
            Script::JournalMode => JOURNAL_MODE_SQL@,
            Script::Schema => SCHEMA_SQL@,
        }
    }

    /// The SQL text of the script.
    pub fn sql(self) -> (sql: &'static str)
        ensures
            sql@ == self.text(),
    {
        match self {
            Script::JournalMode => JOURNAL_MODE_SQL,
            Script::Schema => SCHEMA_SQL,
        }
    }
}

/// Sets a database up: turns on write-ahead logging, then creates what is
/// missing of the schema. Running it again changes nothing.
pub fn init_db() -> (step: Step)
    ensures
        step@ == (StepView::Perform {
            action: ActionView::Run(Script::JournalMode),
            then: PendingView::JournalSet,
        }),
{
    Step::Perform { action: Action::Run(Script::JournalMode), then: Pending::JournalSet }
}

} // verus!
