use identity_habit::schema::{Script, DATABASE_FILE, JOURNAL_MODE_SQL, SCHEMA_SQL};
use identity_habit::statement::{days_back_text, Query, Statement};
use identity_habit::value::SqlValue;

fn integer(n: i64) -> SqlValue {
    SqlValue::Integer(n)
}

fn text(s: &str) -> SqlValue {
    SqlValue::Text(s.to_string())
}

fn placeholders(sql: &str) -> usize {
    (1..=9).take_while(|n| sql.contains(&format!("?{}", n))).count()
}

#[test]
fn statements_bind_their_fields_in_the_order_of_the_text() {
    let cases = vec![
        (
            Statement::InsertUser { name: "Ada".to_string() },
            "INSERT INTO user (name) VALUES (?1)",
            vec![text("Ada")],
        ),
        (
            Statement::InsertIdentity {
                name: "Writer".to_string(),
                description: "Writes".to_string(),
                user_id: 1,
            },
            "INSERT INTO identity (name, description, user_id) VALUES (?1, ?2, ?3)",
            vec![text("Writer"), text("Writes"), integer(1)],
        ),
        (
            Statement::RenameIdentity { id: 2, name: "Poet".to_string() },
            "UPDATE identity SET name = ?1 WHERE id = ?2",
            vec![text("Poet"), integer(2)],
        ),
        (
            Statement::DescribeIdentity { id: 2, description: "Rhymes".to_string() },
            "UPDATE identity SET description = ?1 WHERE id = ?2",
            vec![text("Rhymes"), integer(2)],
        ),
        (
            Statement::InsertTrait { name: "calm".to_string(), identity_id: 2 },
            "INSERT INTO trait (name, identity_id) VALUES (?1, ?2)",
            vec![text("calm"), integer(2)],
        ),
        (Statement::DeleteTrait { id: 3 }, "DELETE FROM trait WHERE id = ?1", vec![integer(3)]),
        (
            Statement::InsertBehavior {
                date: "2024-03-01".to_string(),
                description: "Wrote".to_string(),
                identity_id: 2,
                alignment_score: 8,
            },
            "INSERT INTO behavior_log (date, description, identity_id, alignment_score) VALUES (?1, ?2, ?3, ?4)",
            vec![text("2024-03-01"), text("Wrote"), integer(2), integer(8)],
        ),
        (
            Statement::PutReflection {
                date: "2024-03-01".to_string(),
                content: "{}".to_string(),
                identity_id: 2,
            },
            "INSERT OR REPLACE INTO daily_reflection (date, content, identity_id) VALUES (?1, ?2, ?3)",
            vec![text("2024-03-01"), text("{}"), integer(2)],
        ),
    ];
    for (statement, sql, params) in cases {
        assert_eq!(statement.sql(), sql);
        assert_eq!(statement.params(), params);
        assert_eq!(placeholders(sql), params.len());
    }
}

#[test]
fn queries_bind_their_fields_in_the_order_of_the_text() {
    let day = || "2024-03-01".to_string();
    let cases = vec![
        (Query::LatestUser, "SELECT id, name, created_at FROM user ORDER BY id DESC LIMIT 1", vec![]),
        (Query::UserById { id: 1 }, "SELECT id, name, created_at FROM user WHERE id = ?1", vec![integer(1)]),
        (
            Query::IdentityById { id: 2 },
            "SELECT id, name, description, user_id, created_at FROM identity WHERE id = ?1",
            vec![integer(2)],
        ),
        (
            Query::IdentitiesOfUser { user_id: 1 },
            "SELECT id, name, description, user_id, created_at FROM identity WHERE user_id = ?1 ORDER BY created_at DESC",
            vec![integer(1)],
        ),
        (
            Query::TraitById { id: 3 },
            "SELECT id, name, identity_id, created_at FROM trait WHERE id = ?1",
            vec![integer(3)],
        ),
        (
            Query::TraitsOfIdentity { identity_id: 2 },
            "SELECT id, name, identity_id, created_at FROM trait WHERE identity_id = ?1 ORDER BY created_at",
            vec![integer(2)],
        ),
        (
            Query::BehaviorById { id: 4 },
            "SELECT id, date, description, identity_id, alignment_score, created_at FROM behavior_log WHERE id = ?1",
            vec![integer(4)],
        ),
        (
            Query::BehaviorsOnDate { identity_id: 2, date: day() },
            "SELECT id, date, description, identity_id, alignment_score, created_at FROM behavior_log WHERE identity_id = ?1 AND date = ?2 ORDER BY created_at",
            vec![integer(2), text("2024-03-01")],
        ),
        (
            Query::AlignmentByDay { identity_id: 2, from_date: day(), to_date: "2024-03-07".to_string() },
            "SELECT date, SUM(alignment_score), COUNT(*) FROM behavior_log WHERE identity_id = ?1 AND date >= ?2 AND date <= ?3 GROUP BY date ORDER BY date",
            vec![integer(2), text("2024-03-01"), text("2024-03-07")],
        ),
        (
            Query::AlignmentSince { identity_id: 2, days: 14 },
            "SELECT date, SUM(alignment_score), COUNT(*) FROM behavior_log WHERE identity_id = ?1 AND date >= date('now', ?2) GROUP BY date ORDER BY date",
            vec![integer(2), text("-14 days")],
        ),
        (
            Query::ReflectionById { id: 5 },
            "SELECT id, date, content, identity_id, created_at FROM daily_reflection WHERE id = ?1",
            vec![integer(5)],
        ),
        (
            Query::ReflectionOnDate { identity_id: 2, date: day() },
            "SELECT id, date, content, identity_id, created_at FROM daily_reflection WHERE identity_id = ?1 AND date = ?2",
            vec![integer(2), text("2024-03-01")],
        ),
        (
            Query::ReflectionsOfIdentity { identity_id: 2, limit: 30 },
            "SELECT id, date, content, identity_id, created_at FROM daily_reflection WHERE identity_id = ?1 ORDER BY date DESC LIMIT ?2",
            vec![integer(2), integer(30)],
        ),
    ];
    for (query, sql, params) in cases {
        assert_eq!(query.sql(), sql);
        assert_eq!(query.params(), params);
        assert_eq!(placeholders(sql), params.len());
    }
}

#[test]
fn the_behaviors_of_an_identity_have_one_text_for_each_choice_of_bounds() {
    let select = "SELECT id, date, description, identity_id, alignment_score, created_at FROM behavior_log WHERE identity_id = ?1";
    let order = " ORDER BY date DESC, created_at";
    let from = || Some("2024-03-01".to_string());
    let to = || Some("2024-03-07".to_string());
    let cases = vec![
        (from(), to(), " AND date >= ?2 AND date <= ?3", vec![integer(2), text("2024-03-01"), text("2024-03-07")]),
        (from(), None, " AND date >= ?2", vec![integer(2), text("2024-03-01")]),
        (None, to(), " AND date <= ?2", vec![integer(2), text("2024-03-07")]),
        (None, None, "", vec![integer(2)]),
    ];
    for (from_date, to_date, bounds, params) in cases {
        let query = Query::BehaviorsOfIdentity { identity_id: 2, from_date, to_date };
        assert_eq!(query.sql(), format!("{}{}{}", select, bounds, order));
        assert_eq!(query.params(), params);
        assert_eq!(placeholders(query.sql()), params.len());
    }
}

#[test]
fn days_back_is_a_date_modifier() {
    assert_eq!(days_back_text(14), "-14 days");
    assert_eq!(days_back_text(0), "-0 days");
    assert_eq!(days_back_text(1), "-1 days");
    assert_eq!(days_back_text(-3), "--3 days");
    assert_eq!(days_back_text(i32::MAX), "-2147483647 days");
    assert_eq!(days_back_text(i32::MIN), "--2147483648 days");
}

#[test]
fn scripts_are_the_journal_mode_and_the_schema() {
    assert_eq!(Script::JournalMode.sql(), "PRAGMA journal_mode = WAL;");
    assert_eq!(Script::JournalMode.sql(), JOURNAL_MODE_SQL);
    assert_eq!(Script::Schema.sql(), SCHEMA_SQL);
    for table in ["user", "identity", "trait", "behavior_log", "daily_reflection"] {
        assert!(SCHEMA_SQL.contains(&format!("CREATE TABLE IF NOT EXISTS {} (", table)));
    }
    for index in [
        "idx_behavior_date ON behavior_log(date)",
        "idx_behavior_identity ON behavior_log(identity_id)",
        "idx_reflection_date ON daily_reflection(date)",
        "idx_reflection_identity ON daily_reflection(identity_id)",
    ] {
        assert!(SCHEMA_SQL.contains(&format!("CREATE INDEX IF NOT EXISTS {};", index)));
    }
    assert_eq!(SCHEMA_SQL.matches("ON DELETE CASCADE").count(), 3);
    assert!(SCHEMA_SQL.contains("UNIQUE(date, identity_id)"));
    assert!(SCHEMA_SQL.contains("CHECK (alignment_score >= 1 AND alignment_score <= 10)"));
    assert_eq!(DATABASE_FILE, "identity_habit.db");
}
