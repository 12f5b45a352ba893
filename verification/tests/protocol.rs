use identity_habit::analytics::{get_alignment_trends, get_weekly_alignment, DEFAULT_TREND_DAYS};
use identity_habit::behavior::{
    get_behaviors_for_date, list_behaviors_for_identity, log_behavior, valid_score,
    LogBehaviorInput, MAX_SCORE, MIN_SCORE,
};
use identity_habit::completion::compose_request;
use identity_habit::failure::Failure;
use identity_habit::identity::{
    create_identity, get_identity, list_identities, update_identity, CreateIdentityInput,
};
use identity_habit::protocol::{
    read_reply, resume, Action, Entity, Event, Pending, Reply, Shape, Step,
};
use identity_habit::reflection::{
    generate_reflection, get_reflection_for_date, list_reflections, BehaviorForReflection,
    ReflectionInput, DEFAULT_REFLECTION_LIMIT,
};
use identity_habit::schema::{init_db, Script};
use identity_habit::statement::{Query, Statement};
use identity_habit::trait_::{create_trait, delete_trait, list_traits};
use identity_habit::user::{create_user, get_user, User};
use identity_habit::value::SqlValue;

fn execute(statement: Statement, then: Pending) -> Step {
    Step::Perform { action: Action::Execute(statement), then }
}

fn fetch(query: Query, shape: Shape) -> Step {
    Step::Perform { action: Action::Fetch(query), then: Pending::Rows(shape) }
}

fn failed(failure: Failure) -> Step {
    Step::Done(Err(failure))
}

fn executed() -> Event {
    Event::Executed { last_insert_id: 7 }
}

fn day() -> String {
    "2024-03-01".to_string()
}

fn reflection_input() -> ReflectionInput {
    ReflectionInput {
        identity_id: 3,
        date: day(),
        identity_name: "Writer".to_string(),
        identity_description: "Writes every day".to_string(),
        traits: vec!["disciplined".to_string()],
        behaviors: vec![BehaviorForReflection {
            description: "Wrote a page".to_string(),
            alignment_score: 8,
        }],
    }
}

#[test]
fn user_commands_start_with_their_statement_or_query() {
    assert_eq!(
        create_user("Ada".to_string()),
        execute(Statement::InsertUser { name: "Ada".to_string() }, Pending::Inserted(Entity::User))
    );
    assert_eq!(get_user(), fetch(Query::LatestUser, Shape::MaybeUser));
}

#[test]
fn identity_commands_start_with_their_statement_or_query() {
    let named = CreateIdentityInput { name: "Writer".to_string(), description: None };
    assert_eq!(
        create_identity(1, named),
        execute(
            Statement::InsertIdentity {
                name: "Writer".to_string(),
                description: String::new(),
                user_id: 1,
            },
            Pending::Inserted(Entity::Identity),
        )
    );
    let described =
        CreateIdentityInput { name: "Writer".to_string(), description: Some("Writes".to_string()) };
    assert_eq!(
        create_identity(1, described),
        execute(
            Statement::InsertIdentity {
                name: "Writer".to_string(),
                description: "Writes".to_string(),
                user_id: 1,
            },
            Pending::Inserted(Entity::Identity),
        )
    );
    assert_eq!(list_identities(1), fetch(Query::IdentitiesOfUser { user_id: 1 }, Shape::Identities));
    assert_eq!(get_identity(2), fetch(Query::IdentityById { id: 2 }, Shape::MaybeIdentity));
}

#[test]
fn update_identity_writes_what_is_given_name_first() {
    let name = || Some("Poet".to_string());
    let description = || Some("Rhymes".to_string());
    assert_eq!(
        update_identity(2, name(), description()),
        execute(
            Statement::RenameIdentity { id: 2, name: "Poet".to_string() },
            Pending::Renamed { id: 2, description: description() },
        )
    );
    assert_eq!(
        update_identity(2, name(), None),
        execute(
            Statement::RenameIdentity { id: 2, name: "Poet".to_string() },
            Pending::Renamed { id: 2, description: None },
        )
    );
    assert_eq!(
        update_identity(2, None, description()),
        execute(
            Statement::DescribeIdentity { id: 2, description: "Rhymes".to_string() },
            Pending::Changed { id: 2 },
        )
    );
    assert_eq!(update_identity(2, None, None), fetch(Query::IdentityById { id: 2 }, Shape::Identity));
}

#[test]
fn after_a_renaming_comes_the_description_or_the_fetch() {
    assert_eq!(
        resume(Pending::Renamed { id: 2, description: Some("Rhymes".to_string()) }, executed()),
        execute(
            Statement::DescribeIdentity { id: 2, description: "Rhymes".to_string() },
            Pending::Changed { id: 2 },
        )
    );
    assert_eq!(
        resume(Pending::Renamed { id: 2, description: None }, executed()),
        fetch(Query::IdentityById { id: 2 }, Shape::Identity)
    );
    assert_eq!(
        resume(Pending::Changed { id: 2 }, executed()),
        fetch(Query::IdentityById { id: 2 }, Shape::Identity)
    );
}

#[test]
fn trait_commands_start_with_their_statement_or_query() {
    assert_eq!(
        create_trait(2, "calm".to_string()),
        execute(
            Statement::InsertTrait { name: "calm".to_string(), identity_id: 2 },
            Pending::Inserted(Entity::Trait),
        )
    );
    assert_eq!(list_traits(2), fetch(Query::TraitsOfIdentity { identity_id: 2 }, Shape::Traits));
    assert_eq!(delete_trait(3), execute(Statement::DeleteTrait { id: 3 }, Pending::Written));
    assert_eq!(resume(Pending::Written, executed()), Step::Done(Ok(Reply::Nothing)));
}

#[test]
fn log_behavior_validates_before_it_asks_for_anything() {
    let input = |alignment_score: i32| LogBehaviorInput {
        date: day(),
        description: "Wrote".to_string(),
        identity_id: 2,
        alignment_score,
    };
    for score in [i32::MIN, -1, 0, 11, 12, i32::MAX] {
        assert!(!valid_score(score));
        assert_eq!(log_behavior(input(score)), failed(Failure::ScoreOutOfRange));
    }
    for score in MIN_SCORE..=MAX_SCORE {
        assert!(valid_score(score));
        assert_eq!(
            log_behavior(input(score)),
            execute(
                Statement::InsertBehavior {
                    date: day(),
                    description: "Wrote".to_string(),
                    identity_id: 2,
                    alignment_score: score,
                },
                Pending::Inserted(Entity::Behavior),
            )
        );
    }
    assert_eq!((MIN_SCORE, MAX_SCORE), (1, 10));
}

#[test]
fn behavior_queries_start_with_their_query() {
    assert_eq!(
        get_behaviors_for_date(2, day()),
        fetch(Query::BehaviorsOnDate { identity_id: 2, date: day() }, Shape::Behaviors)
    );
    assert_eq!(
        list_behaviors_for_identity(2, Some(day()), None),
        fetch(
            Query::BehaviorsOfIdentity { identity_id: 2, from_date: Some(day()), to_date: None },
            Shape::Behaviors,
        )
    );
}

#[test]
fn analytics_start_with_their_query_and_default_to_fourteen_days() {
    assert_eq!(
        get_weekly_alignment(2, day(), "2024-03-07".to_string()),
        fetch(
            Query::AlignmentByDay {
                identity_id: 2,
                from_date: day(),
                to_date: "2024-03-07".to_string(),
            },
            Shape::Alignment,
        )
    );
    assert_eq!(
        get_alignment_trends(2, Some(5)),
        fetch(Query::AlignmentSince { identity_id: 2, days: 5 }, Shape::Trends)
    );
    assert_eq!(
        get_alignment_trends(2, None),
        fetch(Query::AlignmentSince { identity_id: 2, days: 14 }, Shape::Trends)
    );
    assert_eq!(DEFAULT_TREND_DAYS, 14);
}

#[test]
fn reflection_queries_start_with_their_query_and_default_to_thirty() {
    assert_eq!(
        get_reflection_for_date(3, day()),
        fetch(Query::ReflectionOnDate { identity_id: 3, date: day() }, Shape::MaybeReflection)
    );
    assert_eq!(
        list_reflections(3, Some(5)),
        fetch(Query::ReflectionsOfIdentity { identity_id: 3, limit: 5 }, Shape::Reflections)
    );
    assert_eq!(
        list_reflections(3, None),
        fetch(Query::ReflectionsOfIdentity { identity_id: 3, limit: 30 }, Shape::Reflections)
    );
    assert_eq!(DEFAULT_REFLECTION_LIMIT, 30);
}

#[test]
fn generate_reflection_needs_a_credential() {
    assert_eq!(
        generate_reflection(String::new(), reflection_input()),
        failed(Failure::MissingApiKey)
    );
    assert_eq!(Failure::MissingApiKey.message(), "OpenAI API key is required");
    assert!(Failure::MissingApiKey.is_validation());
}

#[test]
fn generate_reflection_asks_the_completion_api_first() {
    assert_eq!(
        generate_reflection("sk-test".to_string(), reflection_input()),
        Step::Perform {
            action: Action::Complete(compose_request("sk-test", &reflection_input())),
            then: Pending::Completion { date: day(), identity_id: 3 },
        }
    );
}

#[test]
fn an_answer_is_stored_as_the_reflection_of_the_day() {
    let waiting = || Pending::Completion { date: day(), identity_id: 3 };
    let body = b"{\"choices\": [{\"message\": {\"content\": \"```json\\n{\\\"title\\\": \\\"x\\\"}\\n```\"}}]}".to_vec();
    assert_eq!(
        resume(waiting(), Event::Answered { body }),
        execute(
            Statement::PutReflection {
                date: day(),
                content: "{\"title\": \"x\"}".to_string(),
                identity_id: 3,
            },
            Pending::Inserted(Entity::Reflection),
        )
    );
    assert_eq!(
        resume(Pending::Inserted(Entity::Reflection), Event::Executed { last_insert_id: 12 }),
        fetch(Query::ReflectionById { id: 12 }, Shape::Reflection)
    );
}

#[test]
fn a_completion_that_fails_ends_the_command() {
    let waiting = || Pending::Completion { date: day(), identity_id: 3 };
    assert_eq!(
        resume(waiting(), Event::Failed("error sending request".to_string())),
        failed(Failure::Transport("error sending request".to_string()))
    );
    assert_eq!(
        resume(waiting(), Event::Rejected { body: "quota exceeded".to_string() }),
        failed(Failure::Api("quota exceeded".to_string()))
    );
    assert_eq!(
        Failure::Api("quota exceeded".to_string()).message(),
        "OpenAI API error: quota exceeded"
    );
    assert_eq!(Failure::Api(String::new()).message(), "OpenAI API error: ");
    assert_eq!(
        Failure::Transport("error sending request".to_string()).message(),
        "error sending request"
    );
    assert_eq!(
        resume(waiting(), Event::Answered { body: b"oops".to_vec() }),
        failed(Failure::Undecodable)
    );
    assert_eq!(
        resume(waiting(), Event::Answered { body: b"{\"choices\": [{}]}".to_vec() }),
        failed(Failure::InvalidResponse)
    );
}

#[test]
fn an_insert_is_followed_by_the_fetch_of_its_row() {
    let cases = [
        (Entity::User, Query::UserById { id: 7 }, Shape::User),
        (Entity::Identity, Query::IdentityById { id: 7 }, Shape::Identity),
        (Entity::Trait, Query::TraitById { id: 7 }, Shape::Trait),
        (Entity::Behavior, Query::BehaviorById { id: 7 }, Shape::Behavior),
        (Entity::Reflection, Query::ReflectionById { id: 7 }, Shape::Reflection),
    ];
    for (entity, query, shape) in cases {
        assert_eq!(entity.query_by_id(7), query);
        assert_eq!(entity.shape_of_one(), shape);
        assert_eq!(resume(Pending::Inserted(entity), executed()), fetch(query, shape));
    }
}

#[test]
fn init_db_sets_the_journal_mode_and_then_applies_the_schema() {
    assert_eq!(
        init_db(),
        Step::Perform { action: Action::Run(Script::JournalMode), then: Pending::JournalSet }
    );
    assert_eq!(
        resume(Pending::JournalSet, Event::Ran),
        Step::Perform { action: Action::Run(Script::Schema), then: Pending::SchemaApplied }
    );
    assert_eq!(resume(Pending::SchemaApplied, Event::Ran), Step::Done(Ok(Reply::Nothing)));
    assert_eq!(
        resume(Pending::JournalSet, Event::Failed("disk I/O error".to_string())),
        failed(Failure::Storage("disk I/O error".to_string()))
    );
}

fn user_row(id: i64, name: &str) -> Vec<SqlValue> {
    vec![
        SqlValue::Integer(id),
        SqlValue::Text(name.to_string()),
        SqlValue::Text("2024-03-01 09:00:00".to_string()),
    ]
}

fn stored(id: i64, name: &str) -> User {
    User { id, name: name.to_string(), created_at: "2024-03-01 09:00:00".to_string() }
}

#[test]
fn rows_are_read_as_the_shape_that_is_waited_for() {
    let rows = vec![user_row(2, "Grace"), user_row(1, "Ada")];
    assert_eq!(read_reply(Shape::User, &rows), Ok(Reply::User(stored(2, "Grace"))));
    assert_eq!(read_reply(Shape::MaybeUser, &rows), Ok(Reply::MaybeUser(Some(stored(2, "Grace")))));
    assert_eq!(read_reply(Shape::MaybeUser, &vec![]), Ok(Reply::MaybeUser(None)));
    assert_eq!(read_reply(Shape::User, &vec![]), Err(Failure::NotFound));
    assert_eq!(read_reply(Shape::Identities, &vec![]), Ok(Reply::Identities(vec![])));
    assert_eq!(read_reply(Shape::Traits, &vec![]), Ok(Reply::Traits(vec![])));
    assert_eq!(read_reply(Shape::Behaviors, &vec![]), Ok(Reply::Behaviors(vec![])));
    assert_eq!(read_reply(Shape::Alignment, &vec![]), Ok(Reply::Alignment(vec![])));
    assert_eq!(read_reply(Shape::Trends, &vec![]), Ok(Reply::Trends(vec![])));
    assert_eq!(read_reply(Shape::Reflections, &vec![]), Ok(Reply::Reflections(vec![])));
    assert_eq!(read_reply(Shape::MaybeIdentity, &vec![]), Ok(Reply::MaybeIdentity(None)));
    assert_eq!(read_reply(Shape::MaybeReflection, &vec![]), Ok(Reply::MaybeReflection(None)));
    for shape in [Shape::Identity, Shape::Trait, Shape::Behavior, Shape::Reflection] {
        assert_eq!(read_reply(shape, &vec![]), Err(Failure::NotFound));
    }
    assert_eq!(read_reply(Shape::Identity, &rows), Err(Failure::Column { index: 3 }));
    assert_eq!(
        resume(Pending::Rows(Shape::User), Event::Rows(rows)),
        Step::Done(Ok(Reply::User(stored(2, "Grace"))))
    );
}

#[test]
fn an_event_that_is_not_waited_for_ends_the_command() {
    let pendings = || {
        vec![
            Pending::Rows(Shape::User),
            Pending::Inserted(Entity::User),
            Pending::Renamed { id: 1, description: None },
            Pending::Renamed { id: 1, description: Some("x".to_string()) },
            Pending::Changed { id: 1 },
            Pending::Written,
            Pending::JournalSet,
            Pending::SchemaApplied,
            Pending::Completion { date: day(), identity_id: 1 },
        ]
    };
    let events = || {
        vec![
            executed(),
            Event::Rows(vec![]),
            Event::Ran,
            Event::Answered { body: b"{}".to_vec() },
            Event::Rejected { body: String::new() },
        ]
    };
    let fits = |pending: &Pending, event: &Event| match (pending, event) {
        (Pending::Rows(_), Event::Rows(_)) => true,
        (Pending::Inserted(_), Event::Executed { .. }) => true,
        (Pending::Renamed { .. }, Event::Executed { .. }) => true,
        (Pending::Changed { .. }, Event::Executed { .. }) => true,
        (Pending::Written, Event::Executed { .. }) => true,
        (Pending::JournalSet, Event::Ran) => true,
        (Pending::SchemaApplied, Event::Ran) => true,
        (Pending::Completion { .. }, Event::Answered { .. }) => true,
        (Pending::Completion { .. }, Event::Rejected { .. }) => true,
        _ => false,
    };
    let mut refused = 0;
    for pending in pendings() {
        for event in events() {
            if !fits(&pending, &event) {
                assert_eq!(resume(pending.clone(), event), failed(Failure::Protocol));
                refused += 1;
            }
        }
    }
    assert_eq!(refused, 9 * 5 - 10);
    assert_eq!(Failure::Protocol.message(), "Unexpected event for the pending step");
}

#[test]
fn a_failure_that_the_host_reports_ends_the_command_with_its_message() {
    let pendings = vec![
        Pending::Rows(Shape::User),
        Pending::Inserted(Entity::User),
        Pending::Renamed { id: 1, description: Some("x".to_string()) },
        Pending::Changed { id: 1 },
        Pending::Written,
        Pending::JournalSet,
        Pending::SchemaApplied,
    ];
    for pending in pendings {
        assert_eq!(
            resume(pending, Event::Failed("database is locked".to_string())),
            failed(Failure::Storage("database is locked".to_string()))
        );
    }
    assert_eq!(
        Failure::Storage("database is locked".to_string()).message(),
        "database is locked"
    );
    assert!(!Failure::Storage(String::new()).is_validation());
    assert_eq!(
        Failure::ScoreOutOfRange.message(),
        "alignment_score must be between 1 and 10"
    );
}
