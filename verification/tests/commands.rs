//! The commands on the relational store, each talked through with scripted answers.

use agora::model::{Bookmark, Category, CategoryFocusLevel, CategoryFormat, Post, Thread, ThreadFollowLevel};
use agora::relational::command::{Ask, OpenedThread, Shape, Step, Told};
use agora::relational::commands::answering::mutate_accepted_answer;
use agora::relational::commands::catching_up::{catch_up_page, PageRead};
use agora::relational::commands::following::{set_category_focus_level, set_thread_follow_level};
use agora::relational::commands::migration::migrate;
use agora::relational::commands::moderation::{
    delete_category, delete_post, delete_thread, move_thread_to_category, replace_mentions,
    seed_categories_if_empty, transition_category_format, update_thread,
};
use agora::relational::commands::opening::{create_thread, create_thread_with_activity};
use agora::relational::commands::receipts::{
    mark_activity_batch_read, mark_thread_posts_read, set_activity_read,
};
use agora::relational::commands::replying::{add_reply, add_reply_with_activity};
use agora::relational::commands::saving::{
    ensure_bookmark, remove_saved, settle_reminder, toggle_reaction, update_bookmark,
};
use agora::relational::moderating::{AnswerActivity, LockedThread};
use agora::relational::personal::ActivityLockTarget;
use agora::relational::reads::GENERATION;
use agora::relational::sql::{
    ADVANCE_CLOCK, BUMP_THREAD, CATEGORY_OF_THREAD, DELETE_BOOKMARK, DELETE_CATEGORY,
    DELETE_MENTIONS, DELETE_POST, DELETE_THREAD, INSERT_ALIAS, INSERT_BOOKMARK, INSERT_CATEGORY,
    INSERT_DELIVERY, INSERT_EVENT, INSERT_FOCUS_RULE, INSERT_MENTION, INSERT_POINT, INSERT_POST,
    INSERT_READ_RECEIPT, INSERT_THREAD, LOCK_CATEGORY, LOCK_CATEGORY_FORMAT, LOCK_CLOCK, LOCK_POST,
    LOCK_THREAD, MOVE_THREAD, NEWEST_POST, SETTLE_THREAD, SET_ACCEPTED, SET_FORMAT,
    SUBJECTS_OF_ALIAS, THREAD_OF_POST, UPDATE_BOOKMARK, UPSERT_ACTIVITY_RECEIPT, UPSERT_WATCH,
    WATCHERS,
};
use agora::relational::statement::{Param, Statement};
use agora::store::{AcceptedAnswerAction, BookmarkCas, BookmarkReminderUpdate, CatchUpView};

fn thread(id: &str, category_id: &str) -> Thread {
    Thread {
        id: id.to_string(),
        category_id: category_id.to_string(),
        title: "Title".to_string(),
        author_sub: "u_alice".to_string(),
        author_email: "alice@steadholme.local".to_string(),
        created_at: 10,
        last_at: 10,
        locked: false,
        pinned: false,
        accepted_post_id: String::new(),
    }
}

fn post(id: &str, thread_id: &str, created_at: i64) -> Post {
    Post {
        id: id.to_string(),
        thread_id: thread_id.to_string(),
        body_md: "Body".to_string(),
        quoted_post_id: String::new(),
        author_sub: "u_bob".to_string(),
        author_email: "bob@steadholme.local".to_string(),
        created_at,
    }
}

fn bookmark(version: i64, remind_at: Option<i64>) -> Bookmark {
    Bookmark {
        bookmark_id: "b1".to_string(),
        owner_sub: "u_eve".to_string(),
        post_id: "p1".to_string(),
        note: String::new(),
        remind_at,
        created_at: 5,
        updated_at: 5,
        version,
    }
}

fn text(s: &str) -> Told {
    Told::Text(Some(s.to_string()))
}

fn opened(t: Thread, first: &str) -> Told {
    Told::Thread(Some(OpenedThread { thread: t, first_post_id: first.to_string() }))
}

fn names(list: &[&str]) -> Vec<String> {
    list.iter().map(|s| s.to_string()).collect()
}

/// A statement with its parameters spelled out.
fn show(s: &Statement) -> String {
    let params: Vec<String> = s
        .params
        .iter()
        .map(|p| match p {
            Param::Text(t) => t.clone(),
            Param::OptText(t) => format!("{t:?}"),
            Param::Int(n) => format!("{n}"),
            Param::OptInt(n) => format!("{n:?}"),
            Param::Flag(b) => format!("{b}"),
        })
        .collect();
    format!("{} [{}]", s.sql, params.join("|"))
}

fn with(sql: &str, params: &[&str]) -> String {
    format!("{} [{}]", sql, params.join("|"))
}

fn log_steps(log: &mut Vec<String>, steps: &[Step]) {
    for step in steps {
        log.push(match step {
            Step::Begin => "BEGIN".to_string(),
            Step::Run(s) => show(s),
            Step::Commit => "COMMIT".to_string(),
        });
    }
}

fn same_shape(shape: Shape, told: &Told) -> bool {
    matches!(
        (shape, told),
        (Shape::Text, Told::Text(_))
            | (Shape::Texts, Told::Texts(_))
            | (Shape::Number, Told::Number(_))
            | (Shape::Stamp, Told::Stamp(_))
            | (Shape::Flag, Told::Flag(_))
            | (Shape::Thread, Told::Thread(_))
            | (Shape::Post, Told::Post(_))
            | (Shape::Bookmark, Told::Bookmark(_))
            | (Shape::Threads, Told::Threads(_))
            | (Shape::Target, Told::Target(_))
            | (Shape::Affected, Told::Affected(_))
            | (Shape::Unidentified, Told::Unidentified(_))
            | (Shape::Points, Told::Points(_))
            | (Shape::Receipts, Told::Receipts(_))
            | (Shape::Authors, Told::Authors(_))
    )
}

/// Talks a command through: every fetch is answered by the next scripted answer of its shape.
fn converse<T>(next: impl Fn(&Vec<Told>) -> Ask<T>, script: Vec<Told>) -> (Vec<String>, Result<T, String>) {
    let mut log: Vec<String> = Vec::new();
    let mut told: Vec<Told> = Vec::new();
    let mut script = script.into_iter();
    loop {
        match next(&told) {
            Ask::Fetch(steps, shape, statement) => {
                log_steps(&mut log, &steps);
                log.push(format!("? {}", show(&statement)));
                let answer = script.next().expect("the script has an answer");
                assert!(same_shape(shape, &answer), "asked for {shape:?}");
                told.push(answer);
            },
            Ask::Finish(steps, value) => {
                log_steps(&mut log, &steps);
                assert!(script.next().is_none(), "every answer is used");
                return (log, Ok(value));
            },
            Ask::Restart => return (log, Err("restart".to_string())),
            Ask::Fail(e) => return (log, Err(e.message())),
        }
    }
}

fn asked(sql: &str, params: &[&str]) -> String {
    format!("? {}", with(sql, params))
}

#[test]
fn a_thread_is_opened_in_one_transaction() {
    let (log, r) = converse(
        |told| create_thread(&thread("t", "c"), &post("p", "t", 10), told),
        vec![text("c"), Told::Number(Some(41))],
    );
    assert_eq!(r, Ok(()));
    assert_eq!(
        log,
        [
            "BEGIN".to_string(),
            asked(LOCK_CATEGORY, &["c"]),
            with(INSERT_ALIAS, &["bob", "u_bob", "10"]),
            with(
                INSERT_THREAD,
                &[
                    "t", "c", "Title", "u_alice", "alice@steadholme.local", "10", "10", "Body", "p",
                    "false", "false", "",
                ],
            ),
            with(INSERT_POST, &["p", "t", "Body", "", "u_bob", "bob@steadholme.local", "10"]),
            asked(LOCK_CLOCK, &[]),
            with(ADVANCE_CLOCK, &["42"]),
            with(INSERT_POINT, &["p", "t", "10", "42"]),
            "COMMIT".to_string(),
        ]
    );
}

#[test]
fn a_thread_is_not_opened_in_an_unknown_category_or_with_a_foreign_post() {
    let (log, r) = converse(
        |told| create_thread(&thread("t", "c"), &post("p", "t", 10), told),
        vec![Told::Text(None)],
    );
    assert_eq!(r.unwrap_err(), "store record not found: category not found");
    assert!(!log.iter().any(|s| s.starts_with("INSERT") || s == "COMMIT"));
    let (log, r) =
        converse(|told| create_thread(&thread("t", "c"), &post("p", "x", 10), told), vec![]);
    assert_eq!(
        r.unwrap_err(),
        "invalid store operation: the original post must belong to the new thread"
    );
    assert!(log.is_empty());
}

#[test]
fn an_exhausted_clock_stores_nothing() {
    let (log, r) = converse(
        |told| create_thread(&thread("t", "c"), &post("p", "t", 10), told),
        vec![text("c"), Told::Number(Some(i64::MAX))],
    );
    assert_eq!(r.unwrap_err(), "invalid store operation: catch-up generation is exhausted");
    assert!(!log.contains(&"COMMIT".to_string()));
}

#[test]
fn an_opening_resolves_each_alias() {
    let (log, r) = converse(
        |told| {
            create_thread_with_activity(
                &thread("t", "c"),
                &post("p", "t", 10),
                &names(&["Carol", "dan"]),
                "a1",
                told,
            )
        },
        vec![
            text("c"),
            Told::Texts(names(&["u_carol"])),
            Told::Texts(names(&["u_d1", "u_d2"])),
            Told::Number(Some(0)),
        ],
    );
    assert_eq!(r.unwrap().delivery_subjects, ["u_carol"]);
    assert!(log.contains(&asked(SUBJECTS_OF_ALIAS, &["carol"])));
    assert!(log.contains(&asked(SUBJECTS_OF_ALIAS, &["dan"])));
    assert!(log.contains(&with(DELETE_MENTIONS, &["p"])));
    assert!(log.contains(&with(INSERT_MENTION, &["p", "t", "dan", "10"])));
    assert!(log.contains(&with(INSERT_EVENT, &["a1", "post_created", "t", "p", "u_bob", "10"])));
    assert!(log.contains(&with(INSERT_DELIVERY, &["a1", "subject", "u_carol", "mention"])));
    assert_eq!(log.last().unwrap(), "COMMIT");
}

#[test]
fn a_reply_locks_from_the_outside_to_the_inside() {
    let mut reply = post("r", "t", 30);
    reply.quoted_post_id = "p".to_string();
    let (log, r) = converse(
        |told| add_reply(&reply, 0, told),
        vec![
            text("c"),
            text("c"),
            opened(thread("t", "c"), "p"),
            Told::Post(Some(post("p", "t", 10))),
            Told::Number(Some(7)),
        ],
    );
    assert_eq!(r, Ok(()));
    assert_eq!(log[0], asked(CATEGORY_OF_THREAD, &["t"]));
    assert_eq!(log[1], "BEGIN");
    assert_eq!(log[2], asked(LOCK_CATEGORY, &["c"]));
    assert_eq!(log[3], asked(LOCK_THREAD, &["t"]));
    assert_eq!(log[4], asked(LOCK_POST, &["p"]));
    assert!(log.contains(&with(INSERT_POINT, &["r", "t", "30", "8"])));
    assert!(log.contains(&with(BUMP_THREAD, &["30", "t"])));
    assert_eq!(log.last().unwrap(), "COMMIT");
}

#[test]
fn a_reply_is_refused_or_started_over() {
    let reply = post("r", "t", 30);
    let (_, r) = converse(|told| add_reply(&reply, 0, told), vec![Told::Text(None)]);
    assert_eq!(r.unwrap_err(), "store record not found: thread not found");

    let mut locked = thread("t", "c");
    locked.locked = true;
    let (_, r) = converse(
        |told| add_reply(&reply, 0, told),
        vec![text("c"), text("c"), opened(locked, "p")],
    );
    assert_eq!(
        r.unwrap_err(),
        "invalid store operation: this thread is locked — no new replies"
    );

    for (attempt, expected) in [
        (0, "restart"),
        (3, "store error: thread category changed repeatedly; retry the reply"),
    ] {
        let (_, r) = converse(
            |told| add_reply(&reply, attempt, told),
            vec![text("c"), text("c"), opened(thread("t", "moved"), "p")],
        );
        assert_eq!(r.unwrap_err(), expected);
    }

    let mut quoting = post("r", "t", 30);
    quoting.quoted_post_id = "x".to_string();
    let (_, r) = converse(
        |told| add_reply(&quoting, 0, told),
        vec![
            text("c"),
            text("c"),
            opened(thread("t", "c"), "p"),
            Told::Post(Some(post("x", "elsewhere", 1))),
        ],
    );
    assert_eq!(
        r.unwrap_err(),
        "invalid store operation: quoted post must belong to this thread"
    );
}

#[test]
fn a_reply_tells_watchers_and_the_author() {
    let reply = post("r", "t", 30);
    let (log, r) = converse(
        |told| add_reply_with_activity(&reply, &names(&["carol"]), "a1", 0, told),
        vec![
            text("c"),
            text("c"),
            opened(thread("t", "c"), "p"),
            Told::Texts(names(&["u_bob", "u_dan"])),
            Told::Texts(names(&["u_carol"])),
            Told::Number(Some(7)),
        ],
    );
    assert_eq!(r.unwrap().delivery_subjects, ["u_alice", "u_carol", "u_dan"]);
    assert!(log.contains(&asked(WATCHERS, &["t", "257"])));
    assert!(log.contains(&with(INSERT_DELIVERY, &["a1", "subject", "u_dan", "following"])));
    assert!(log.contains(&with(INSERT_DELIVERY, &["a1", "subject", "u_alice", "reply"])));
    assert!(!log.iter().any(|s| s.contains("u_bob|following")));
}

#[test]
fn a_deletion_removes_once() {
    let (log, r) = converse(|told| delete_thread("t", 0, told), vec![Told::Text(None)]);
    assert_eq!(r, Ok(()));
    assert_eq!(log.len(), 1);

    let (log, r) =
        converse(|told| delete_thread("t", 0, told), vec![text("c"), text("c"), text("c")]);
    assert_eq!(r, Ok(()));
    assert!(log.contains(&with(DELETE_THREAD, &["t"])));
    assert_eq!(log.last().unwrap(), "COMMIT");

    let (_, r) =
        converse(|told| delete_thread("t", 0, told), vec![text("c"), text("c"), text("moved")]);
    assert_eq!(r.unwrap_err(), "restart");
}

#[test]
fn a_deleted_reply_settles_its_thread() {
    let mut t = thread("t", "c");
    t.accepted_post_id = "r".to_string();
    let (log, r) = converse(
        |told| delete_post("r", 0, told),
        vec![
            text("t"),
            text("c"),
            text("c"),
            opened(t, "p"),
            Told::Post(Some(post("r", "t", 30))),
            Told::Number(Some(10)),
        ],
    );
    assert_eq!(r, Ok(()));
    assert_eq!(log[0], asked(THREAD_OF_POST, &["r"]));
    assert!(log.contains(&with(DELETE_POST, &["r"])));
    assert!(log.contains(&asked(NEWEST_POST, &["t"])));
    assert!(log.contains(&with(SETTLE_THREAD, &["10", "", "t"])));

    let (_, r) = converse(
        |told| delete_post("p", 0, told),
        vec![
            text("t"),
            text("c"),
            text("c"),
            opened(thread("t", "c"), "p"),
            Told::Post(Some(post("p", "t", 10))),
        ],
    );
    assert_eq!(
        r.unwrap_err(),
        "invalid store operation: the original post cannot be deleted separately; delete the thread"
    );
}

#[test]
fn a_move_locks_both_categories_in_order() {
    let (log, r) = converse(
        |told| move_thread_to_category("t", "a", 0, told),
        vec![text("b"), text("question"), text("discussion"), opened(thread("t", "b"), "p")],
    );
    assert_eq!(r, Ok(()));
    assert_eq!(log[2], asked(LOCK_CATEGORY_FORMAT, &["a"]));
    assert_eq!(log[3], asked(LOCK_CATEGORY_FORMAT, &["b"]));
    assert!(log.contains(&with(MOVE_THREAD, &["a", "", "t"])));

    let mut solved = thread("t", "a");
    solved.accepted_post_id = "r".to_string();
    let (_, r) = converse(
        |told| move_thread_to_category("t", "b", 0, told),
        vec![text("a"), text("question"), text("discussion"), opened(solved, "p"), text("t")],
    );
    assert_eq!(
        r.unwrap_err(),
        "invalid store operation: unmark the accepted answer before moving this thread to a \
         discussion category"
    );
    let (_, r) = converse(
        |told| move_thread_to_category("t", "b", 0, told),
        vec![text("a"), text("question"), Told::Text(None)],
    );
    assert_eq!(r.unwrap_err(), "invalid store operation: unknown category");
}

#[test]
fn a_format_change_asks_for_hidden_answers() {
    let (log, r) = converse(
        |told| transition_category_format("c", CategoryFormat::Question, told),
        vec![text("discussion")],
    );
    assert_eq!(r, Ok(()));
    assert!(log.contains(&with(SET_FORMAT, &["question", "c"])));

    let locked = || {
        Told::Threads(vec![LockedThread {
            id: "t".to_string(),
            first_post_id: "p".to_string(),
            accepted_post_id: "r".to_string(),
        }])
    };
    let (_, r) = converse(
        |told| transition_category_format("c", CategoryFormat::Discussion, told),
        vec![text("question"), locked(), text("t")],
    );
    assert_eq!(
        r.unwrap_err(),
        "invalid store operation: unmark accepted answers before changing this category to discussion"
    );
    let (log, r) = converse(
        |told| transition_category_format("c", CategoryFormat::Discussion, told),
        vec![text("question"), locked(), Told::Text(None)],
    );
    assert_eq!(r, Ok(()));
    assert_eq!(log.last().unwrap(), "COMMIT");
}

#[test]
fn a_category_is_deleted_when_empty() {
    let (log, r) =
        converse(|told| delete_category("c", told), vec![text("c"), Told::Number(Some(0))]);
    assert_eq!(r, Ok(()));
    assert!(log.contains(&with(DELETE_CATEGORY, &["c"])));
    let (_, r) = converse(|told| delete_category("c", told), vec![text("c"), Told::Number(Some(2))]);
    assert_eq!(
        r.unwrap_err(),
        "invalid store operation: category still has threads — move or delete them first"
    );
}

#[test]
fn categories_are_seeded_into_an_empty_table() {
    let defaults = vec![Category {
        id: "c".to_string(),
        name: "C".to_string(),
        sort_order: 3,
        format: CategoryFormat::Question,
    }];
    let (log, r) = converse(
        |told| seed_categories_if_empty(&defaults, told),
        vec![Told::Number(Some(0))],
    );
    assert_eq!(r, Ok(()));
    assert!(log.contains(&with(INSERT_CATEGORY, &["c", "C", "3", "question"])));
    let (log, r) = converse(
        |told| seed_categories_if_empty(&defaults, told),
        vec![Told::Number(Some(1))],
    );
    assert_eq!(r, Ok(()));
    assert_eq!(log.len(), 1);
}

#[test]
fn edits_are_written_in_one_transaction() {
    let mut log = Vec::new();
    log_steps(&mut log, &update_thread("t", "New", "p", "Text"));
    assert_eq!(log.first().unwrap(), "BEGIN");
    assert_eq!(log.last().unwrap(), "COMMIT");
    assert!(log.iter().any(|s| s.contains("UPDATE threads") && s.contains("New")));
    let mut log = Vec::new();
    log_steps(&mut log, &replace_mentions("p", "t", &names(&["carol"]), 9));
    assert_eq!(
        log,
        [
            "BEGIN".to_string(),
            with(DELETE_MENTIONS, &["p"]),
            with(INSERT_MENTION, &["p", "t", "carol", "9"]),
            "COMMIT".to_string(),
        ]
    );
}

#[test]
fn an_answer_is_accepted_and_told() {
    let action = AcceptedAnswerAction::Accept { post_id: " r ".to_string() };
    let told_by =
        || Some(AnswerActivity { activity_id: "a1", actor_sub: "u_alice", created_at: 50 });
    let (log, r) = converse(
        |told| mutate_accepted_answer("t", &action, told_by(), 0, told),
        vec![
            text("c"),
            text("question"),
            opened(thread("t", "c"), "p"),
            Told::Post(Some(post("r", "t", 30))),
        ],
    );
    let mutation = r.unwrap();
    assert!(mutation.changed);
    assert_eq!(mutation.thread.accepted_post_id, "r");
    assert_eq!(mutation.delivery_subjects, ["u_bob"]);
    assert!(log.contains(&with(SET_ACCEPTED, &["r", "t"])));
    assert!(log.contains(&with(INSERT_DELIVERY, &["a1", "subject", "u_bob", "answer"])));

    let (_, r) = converse(
        |told| mutate_accepted_answer("t", &action, None, 0, told),
        vec![text("c"), text("discussion"), opened(thread("t", "c"), "p")],
    );
    assert_eq!(
        r.unwrap_err(),
        "invalid store operation: accepted answers are available only in question categories"
    );
    let (_, r) = converse(
        |told| mutate_accepted_answer("t", &action, None, 0, told),
        vec![
            text("c"),
            text("question"),
            opened(thread("t", "c"), "p"),
            Told::Post(Some(post("r", "elsewhere", 30))),
        ],
    );
    assert_eq!(r.unwrap_err(), "store record not found: reply not found");
}

#[test]
fn a_watch_is_bounded() {
    let watchers: Vec<String> = (0..256).map(|k| format!("u_{k}")).collect();
    let (_, r) = converse(
        |told| set_thread_follow_level("t", "u_eve", ThreadFollowLevel::Watch, 5, 0, told),
        vec![text("c"), text("c"), text("c"), Told::Text(None), Told::Texts(watchers)],
    );
    assert_eq!(r.unwrap_err(), "invalid store operation: a thread may have at most 256 watchers");
    let (log, r) = converse(
        |told| set_thread_follow_level("t", "u_eve", ThreadFollowLevel::Watch, 5, 0, told),
        vec![text("c"), text("c"), text("c"), text("u_eve")],
    );
    assert_eq!(r, Ok(()));
    assert!(log.contains(&with(UPSERT_WATCH, &["t", "u_eve", "5"])));
}

#[test]
fn a_focus_rule_is_inserted_or_refused() {
    let ask = |told: &Vec<Told>| {
        set_category_focus_level("u_eve", "c", CategoryFocusLevel::Priority, 5, told)
    };
    let (log, r) = converse(
        ask,
        vec![text("c"), text("u_eve"), Told::Text(None), Told::Number(Some(63))],
    );
    assert_eq!(r, Ok(()));
    assert!(log.contains(&with(INSERT_FOCUS_RULE, &["u_eve", "c", "priority", "5"])));
    let (_, r) = converse(
        ask,
        vec![text("c"), text("u_eve"), Told::Text(None), Told::Number(Some(64))],
    );
    assert_eq!(
        r.unwrap_err(),
        "invalid store operation: a user may keep at most 64 category focus rules"
    );
}

#[test]
fn reading_takes_one_generation() {
    let (log, r) = converse(
        |told| mark_thread_posts_read("u_eve", "t", &names(&["p", "r", "p"]), 9, told),
        vec![
            text("t"),
            text("t"),
            text("t"),
            Told::Stamp(None),
            Told::Stamp(Some(Some(3))),
            Told::Number(Some(11)),
        ],
    );
    assert_eq!(r, Ok(()));
    assert!(log.contains(&with(ADVANCE_CLOCK, &["12"])));
    assert!(log.contains(&with(INSERT_READ_RECEIPT, &["u_eve", "p", "9", "12"])));
    assert!(!log.contains(&with(INSERT_READ_RECEIPT, &["u_eve", "r", "9", "12"])));
    let (_, r) = converse(
        |told| mark_thread_posts_read("u_eve", "t", &names(&["p"]), 9, told),
        vec![text("t"), text("elsewhere")],
    );
    assert_eq!(r.unwrap_err(), "store record not found: thread post not found");
}

fn target(activity_id: &str, thread_id: &str) -> Told {
    Told::Target(Some(ActivityLockTarget {
        category_id: "c".to_string(),
        thread_id: thread_id.to_string(),
        post_id: format!("{thread_id}_p"),
        activity_id: activity_id.to_string(),
    }))
}

#[test]
fn an_event_is_marked_under_its_locks() {
    let (log, r) = converse(
        |told| set_activity_read("a1", "u_eve", true, 9, told),
        vec![target("a1", "t"), text("c"), text("c"), text("t"), text("a1")],
    );
    assert_eq!(r, Ok(()));
    assert!(log.contains(&with(UPSERT_ACTIVITY_RECEIPT, &["a1", "u_eve", "9"])));
    let (_, r) = converse(
        |told| set_activity_read("a1", "u_eve", true, 9, told),
        vec![target("a1", "t"), text("c"), text("c"), text("t"), Told::Text(None)],
    );
    assert_eq!(r.unwrap_err(), "store record not found: activity not found");

    let (_, r) = converse(
        |told| mark_activity_batch_read("u_eve", &names(&["a2", "a1"]), 9, told),
        vec![
            target("a1", "t"),
            target("a2", "t"),
            text("c"),
            text("c"),
            text("t"),
            text("a1"),
            text("a2"),
            Told::Affected(1),
            Told::Affected(0),
        ],
    );
    assert_eq!(r, Ok(1));
}

#[test]
fn a_bookmark_is_saved_edited_settled_and_removed() {
    let (log, r) = converse(
        |told| ensure_bookmark("u_eve", "p1", "b1", 5, told),
        vec![text("p1"), text("u_eve"), Told::Bookmark(None), Told::Number(Some(0))],
    );
    assert_eq!(r, Ok(bookmark(1, None)));
    assert!(log.contains(&with(
        INSERT_BOOKMARK,
        &["b1", "u_eve", "p1", "", "None", "5", "5", "1"]
    )));
    let (_, r) = converse(
        |told| ensure_bookmark("u_eve", "p1", "b9", 6, told),
        vec![text("p1"), text("u_eve"), Told::Bookmark(Some(bookmark(3, None)))],
    );
    assert_eq!(r, Ok(bookmark(3, None)));
    let (_, r) = converse(
        |told| ensure_bookmark("u_eve", "p1", "b9", 6, told),
        vec![text("p1"), text("u_eve"), Told::Bookmark(None), Told::Number(Some(1_000))],
    );
    assert_eq!(r.unwrap_err(), "invalid store operation: a user may save at most 1000 bookmarks");

    let cas = BookmarkCas { bookmark_id: "b1", version: 1 };
    let (log, r) = converse(
        |told| {
            update_bookmark("u_eve", "p1", cas, "n", BookmarkReminderUpdate::SetTo(9), 7, told)
        },
        vec![text("p1"), Told::Bookmark(Some(bookmark(1, None)))],
    );
    assert_eq!(r.unwrap().version, 2);
    assert!(log.contains(&with(
        UPDATE_BOOKMARK,
        &["n", "Some(9)", "7", "2", "u_eve", "p1", "b1"]
    )));
    let (_, r) = converse(
        |told| update_bookmark("u_eve", "p1", cas, "n", BookmarkReminderUpdate::Keep, 7, told),
        vec![text("p1"), Told::Bookmark(Some(bookmark(2, None)))],
    );
    assert_eq!(r.unwrap_err(), "store conflict: bookmark changed in another tab; reload and retry");

    let (_, r) = converse(
        |told| settle_reminder("u_eve", "p1", cas, None, 20, told),
        vec![text("p1"), Told::Bookmark(Some(bookmark(1, Some(15))))],
    );
    assert_eq!(r.unwrap().remind_at, None);
    let (_, r) = converse(
        |told| settle_reminder("u_eve", "p1", cas, None, 20, told),
        vec![text("p1"), Told::Bookmark(Some(bookmark(1, Some(25))))],
    );
    assert_eq!(r.unwrap_err(), "invalid store operation: bookmark reminder is not due");

    let (log, r) = converse(
        |told| remove_saved("u_eve", "p1", cas, told),
        vec![text("p1"), Told::Bookmark(Some(bookmark(1, None)))],
    );
    assert_eq!(r, Ok(()));
    assert!(log.contains(&with(DELETE_BOOKMARK, &["u_eve", "p1", "b1"])));
}

#[test]
fn a_toggle_inserts_or_removes() {
    let (log, r) =
        converse(|told| toggle_reaction("p", "u", "heart", 3, told), vec![Told::Affected(1)]);
    assert_eq!((r, log.len()), (Ok(true), 1));
    let (log, r) =
        converse(|told| toggle_reaction("p", "u", "heart", 3, told), vec![Told::Affected(0)]);
    assert_eq!((r, log.len()), (Ok(false), 2));
}

/// The first answer of the shape that says that nothing is there.
fn nothing(shape: Shape) -> Told {
    match shape {
        Shape::Text => Told::Text(None),
        Shape::Texts => Told::Texts(vec![]),
        Shape::Number => Told::Number(Some(0)),
        Shape::Stamp => Told::Stamp(None),
        Shape::Flag => Told::Flag(false),
        Shape::Thread => Told::Thread(None),
        Shape::Post => Told::Post(None),
        Shape::Bookmark => Told::Bookmark(None),
        Shape::Threads => Told::Threads(vec![]),
        Shape::Target => Told::Target(None),
        Shape::Affected => Told::Affected(0),
        Shape::Unidentified => Told::Unidentified(vec![]),
        Shape::Points => Told::Points(vec![]),
        Shape::Receipts => Told::Receipts(vec![]),
        Shape::Authors => Told::Authors(vec![]),
    }
}

#[test]
fn an_empty_database_is_migrated() {
    let mut told: Vec<Told> = Vec::new();
    let mut log: Vec<String> = Vec::new();
    loop {
        match migrate(&told) {
            Ask::Fetch(steps, shape, s) => {
                log_steps(&mut log, &steps);
                log.push(show(&s));
                told.push(nothing(shape));
            },
            Ask::Finish(steps, ()) => {
                log_steps(&mut log, &steps);
                break;
            },
            Ask::Restart => panic!("a migration is not started over"),
            Ask::Fail(e) => panic!("{}", e.message()),
        }
    }
    for table in ["categories", "threads", "posts", "forum_bookmarks", "forum_activity_events"] {
        let create = format!("CREATE TABLE IF NOT EXISTS {table} ");
        assert!(log.iter().any(|s| s.starts_with(&create)), "{table}");
    }
}

#[test]
fn a_catch_up_page_is_not_ahead_of_the_clock() {
    let ask = |generation: i64, limit: i64| {
        move |told: &Vec<Told>| {
            catch_up_page("u_eve", CatchUpView::Following, 50, generation, None, limit, told)
        }
    };
    let (log, r) = converse(ask(7, 10), vec![Told::Number(Some(7))]);
    assert_eq!(log[0], "BEGIN");
    assert_eq!(log[1], asked(GENERATION, &[]));
    assert_eq!(log[2], "COMMIT");
    match r.unwrap() {
        PageRead::Rows(s) => assert!(show(&s).ends_with("[u_eve|50|7|false|0||10]")),
        PageRead::Nothing => panic!("the page has room"),
    }
    let (_, r) = converse(ask(8, 10), vec![Told::Number(Some(7))]);
    assert_eq!(
        r.err().unwrap(),
        "invalid store operation: catch-up snapshot generation is in the future"
    );
    let (log, r) = converse(ask(8, 0), vec![]);
    assert!(log.is_empty());
    assert!(matches!(r, Ok(PageRead::Nothing)));
    let (log, r) = converse(ask(-1, 10), vec![]);
    assert!(log.is_empty());
    assert_eq!(
        r.err().unwrap(),
        "invalid store operation: catch-up snapshot bounds must be non-negative"
    );
}

#[test]
fn the_last_version_of_a_bookmark_is_not_edited() {
    let cas = BookmarkCas { bookmark_id: "b1", version: i64::MAX };
    let (log, r) = converse(
        |told| update_bookmark("u_eve", "p1", cas, "n", BookmarkReminderUpdate::Keep, 7, told),
        vec![text("p1"), Told::Bookmark(Some(bookmark(i64::MAX, None)))],
    );
    assert_eq!(r.unwrap_err(), "store conflict: bookmark version is exhausted; reload and retry");
    assert!(!log.iter().any(|line| line.starts_with(UPDATE_BOOKMARK)));
}

#[test]
fn an_empty_page_of_events_is_an_empty_transaction() {
    let (log, r) =
        converse(|told| mark_activity_batch_read("u_eve", &[], 9, told), Vec::new());
    assert_eq!(r, Ok(0));
    assert_eq!(log, ["BEGIN", "COMMIT"]);
}

#[test]
fn a_migrated_database_is_migrated_again_without_a_change() {
    for leveled in [false, true] {
        let mut told: Vec<Told> = Vec::new();
        let mut late: Vec<String> = Vec::new();
        let mut clock: Vec<String> = Vec::new();
        loop {
            let mut log: Vec<String> = Vec::new();
            match migrate(&told) {
                Ask::Fetch(steps, shape, _) => {
                    log_steps(&mut log, &steps);
                    told.push(match told.len() {
                        1..=3 => Told::Number(Some(41)),
                        7 => Told::Flag(leveled),
                        n if n > 7 => Told::Flag(true),
                        _ => nothing(shape),
                    });
                },
                Ask::Finish(steps, ()) => {
                    log_steps(&mut log, &steps);
                    late.extend(log);
                    break;
                },
                Ask::Restart => panic!("a migration is not started over"),
                Ask::Fail(e) => panic!("{}", e.message()),
            }
            if told.len() > 8 {
                late.extend(log);
            } else {
                clock.extend(log.into_iter().filter(|s| s.starts_with(ADVANCE_CLOCK)));
            }
        }
        assert_eq!(told.len(), if leveled { 12 } else { 11 });
        assert_eq!(clock, [with(ADVANCE_CLOCK, &["41"])]);
        assert!(late.iter().all(|s| !s.starts_with("ALTER")), "{late:?}");
    }
}
