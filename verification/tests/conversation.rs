//! Answers, follow levels, category focus, activity, and what each of them reaches.

use agora::model::{
    ActivityKind, ActivityReason, Category, CategoryFocusLevel, CategoryFormat, Post, Thread,
    ThreadFollowLevel,
};
use agora::store::rules::{
    activity_filter_matches, best_activity_reason, category_focus_reason, catch_up_reason,
    dedupe_deliveries, delivery_subjects, identity_alias, normalize_activity_alias,
    subject_delivery,
};
use agora::store::{
    AcceptedAnswerAction, ActivityCursor, ActivityFilter, CatchUpReason, CatchUpView,
    CategoryFocusReason, InMemoryStore, StoreError, MAX_ACTIVITY_BATCH, MAX_CATEGORY_FOCUS_PAGE,
    MAX_CATEGORY_FOCUS_RULES, MAX_MENTIONS_PER_POST, MAX_THREAD_FOLLOWERS,
};

fn category(id: &str, sort_order: i64, format: CategoryFormat) -> Category {
    Category { id: id.to_string(), name: id.to_string(), sort_order, format }
}

fn thread(id: &str, category_id: &str, author: &str, created_at: i64) -> Thread {
    Thread {
        id: id.to_string(),
        category_id: category_id.to_string(),
        title: format!("Title of {id}"),
        author_sub: format!("u_{author}"),
        author_email: format!("{author}@steadholme.local"),
        created_at,
        last_at: created_at,
        locked: false,
        pinned: false,
        accepted_post_id: String::new(),
    }
}

fn post(id: &str, thread_id: &str, author: &str, created_at: i64) -> Post {
    Post {
        id: id.to_string(),
        thread_id: thread_id.to_string(),
        body_md: format!("Body of {id}"),
        quoted_post_id: String::new(),
        author_sub: format!("u_{author}"),
        author_email: format!("{author}@steadholme.local"),
        created_at,
    }
}

/// A question `q` in `help` and a discussion `d` in `talk`, both opened by alice.
fn forum() -> InMemoryStore {
    let mut store = InMemoryStore::new();
    store.create_category(&category("help", 1, CategoryFormat::Question)).unwrap();
    store.create_category(&category("talk", 2, CategoryFormat::Discussion)).unwrap();
    store
        .create_thread(&thread("q", "help", "alice", 10), &post("q_op", "q", "alice", 10))
        .unwrap();
    store
        .create_thread(&thread("d", "talk", "alice", 20), &post("d_op", "d", "alice", 20))
        .unwrap();
    store
}

fn accept(post_id: &str) -> AcceptedAnswerAction {
    AcceptedAnswerAction::Accept { post_id: post_id.to_string() }
}

fn names(list: &[&str]) -> Vec<String> {
    list.iter().map(|s| s.to_string()).collect()
}

#[test]
fn an_accepted_answer_reads_back_and_clears() {
    let mut store = forum();
    store.add_reply(&post("r1", "q", "bob", 30)).unwrap();
    let mutation = store.mutate_accepted_answer("q", accept("  r1 ")).unwrap();
    assert!(mutation.changed);
    assert_eq!(mutation.thread.accepted_post_id, "r1");
    assert_eq!(mutation.accepted_post, Some(post("r1", "q", "bob", 30)));
    assert_eq!(store.get_valid_accepted_post("q").unwrap(), Some(post("r1", "q", "bob", 30)));

    let again = store.mutate_accepted_answer("q", accept("r1")).unwrap();
    assert!(!again.changed);

    let cleared = store.mutate_accepted_answer("q", AcceptedAnswerAction::Clear).unwrap();
    assert!(cleared.changed);
    assert_eq!(cleared.accepted_post, None);
    assert_eq!(store.get_valid_accepted_post("q").unwrap(), None);
    assert_eq!(store.get_thread("q").unwrap(), Some({
        let mut t = thread("q", "help", "alice", 10);
        t.last_at = 30;
        t
    }));
}

#[test]
fn answers_are_refused_with_their_reason() {
    let mut store = forum();
    store.add_reply(&post("r1", "d", "bob", 30)).unwrap();
    let message = |store: &mut InMemoryStore, thread: &str, id: &str| -> String {
        store.mutate_accepted_answer(thread, accept(id)).unwrap_err().message()
    };
    assert_eq!(message(&mut store, "absent", "r1"), "store record not found: thread not found");
    assert_eq!(
        message(&mut store, "d", "r1"),
        "invalid store operation: accepted answers are available only in question categories"
    );
    assert_eq!(
        message(&mut store, "q", "  "),
        "invalid store operation: reply is required when accepting an answer"
    );
    assert_eq!(
        message(&mut store, "q", "q_op"),
        "invalid store operation: the original post cannot be the accepted answer"
    );
    assert_eq!(message(&mut store, "q", "r1"), "store record not found: reply not found");
}

#[test]
fn an_answer_is_not_hidden_by_a_category_change() {
    let mut store = forum();
    store.add_reply(&post("r1", "q", "bob", 30)).unwrap();
    store.mutate_accepted_answer("q", accept("r1")).unwrap();
    let error = store.transition_category_format("help", CategoryFormat::Discussion).unwrap_err();
    assert_eq!(
        error.message(),
        "invalid store operation: unmark accepted answers before changing this category to discussion"
    );
    let error = store.move_thread_to_category("q", "talk").unwrap_err();
    assert_eq!(
        error.message(),
        "invalid store operation: unmark the accepted answer before moving this thread to a \
         discussion category"
    );
    store.delete_post("r1").unwrap();
    assert_eq!(store.get_thread("q").unwrap().unwrap().accepted_post_id, "");
    store.move_thread_to_category("q", "talk").unwrap();
    store.transition_category_format("help", CategoryFormat::Discussion).unwrap();
}

#[test]
fn an_accepted_answer_tells_its_author_once() {
    let mut store = forum();
    store.add_reply(&post("r1", "q", "bob", 30)).unwrap();
    let first = store
        .mutate_accepted_answer_with_activity("q", accept("r1"), "a1", "u_alice", 40)
        .unwrap();
    assert_eq!(first.delivery_subjects, ["u_bob"]);
    let second = store
        .mutate_accepted_answer_with_activity("q", accept("r1"), "a2", "u_alice", 50)
        .unwrap();
    assert!(second.delivery_subjects.is_empty());
    let page = store.activity_page("u_bob", ActivityFilter::All, false, None, 10).unwrap();
    assert_eq!(page.len(), 1);
    assert_eq!(page[0].event.id, "a1");
    assert_eq!(page[0].event.kind, ActivityKind::AnswerAccepted);
    assert_eq!(page[0].reason, ActivityReason::Answer);

    let own = store
        .mutate_accepted_answer_with_activity("q", AcceptedAnswerAction::Clear, "a3", "u_bob", 60)
        .unwrap();
    assert!(own.changed && own.delivery_subjects.is_empty());
    let own = store
        .mutate_accepted_answer_with_activity("q", accept("r1"), "a4", "u_bob", 70)
        .unwrap();
    assert!(own.delivery_subjects.is_empty(), "nobody is told of what they did themselves");
}

#[test]
fn follow_levels_read_back() {
    let mut store = forum();
    assert_eq!(store.thread_follow_level("d", "u_bob").unwrap(), ThreadFollowLevel::Unset);
    for level in [ThreadFollowLevel::Watch, ThreadFollowLevel::Follow, ThreadFollowLevel::Mute] {
        store.set_thread_follow_level("d", "u_bob", level, 30).unwrap();
        store.set_thread_follow_level("d", "u_bob", level, 31).unwrap();
        assert_eq!(store.thread_follow_level("d", "u_bob").unwrap(), level);
        assert_eq!(store.thread_follow_level("q", "u_bob").unwrap(), ThreadFollowLevel::Unset);
    }
    store.set_thread_follow_level("d", "u_bob", ThreadFollowLevel::Unset, 40).unwrap();
    assert_eq!(store.thread_follow_level("d", "u_bob").unwrap(), ThreadFollowLevel::Unset);
    let error = store
        .set_thread_follow_level("absent", "u_bob", ThreadFollowLevel::Watch, 50)
        .unwrap_err();
    assert_eq!(error.message(), "store record not found: thread not found");
}

#[test]
fn a_thread_has_a_bounded_number_of_watchers() {
    let mut store = forum();
    for k in 0..MAX_THREAD_FOLLOWERS {
        store
            .set_thread_follow_level("d", &format!("u_{k}"), ThreadFollowLevel::Watch, 30)
            .unwrap();
    }
    let error =
        store.set_thread_follow_level("d", "u_late", ThreadFollowLevel::Watch, 30).unwrap_err();
    assert_eq!(
        error.message(),
        "invalid store operation: a thread may have at most 256 watchers"
    );
    store.set_thread_follow_level("d", "u_0", ThreadFollowLevel::Watch, 31).unwrap();
    store.set_thread_follow_level("d", "u_late", ThreadFollowLevel::Follow, 30).unwrap();
    let told = store.add_reply_with_activity(&post("r1", "d", "bob", 40), &[], "a1").unwrap();
    assert_eq!(told.delivery_subjects.len(), MAX_THREAD_FOLLOWERS + 1);
}

#[test]
fn a_reply_tells_watchers_the_author_and_the_quoted() {
    let mut store = forum();
    store.add_reply(&post("r0", "d", "carol", 25)).unwrap();
    store.set_thread_follow_level("d", "u_dan", ThreadFollowLevel::Watch, 26).unwrap();
    store.set_thread_follow_level("d", "u_eve", ThreadFollowLevel::Follow, 26).unwrap();
    store.set_thread_follow_level("d", "u_bob", ThreadFollowLevel::Watch, 26).unwrap();
    let mut reply = post("r1", "d", "bob", 30);
    reply.quoted_post_id = "r0".to_string();
    let told = store.add_reply_with_activity(&reply, &[], "a1").unwrap();
    assert_eq!(told.delivery_subjects, ["u_alice", "u_carol", "u_dan"]);
    let reason = |who: &str| -> ActivityReason {
        store.activity_page(who, ActivityFilter::All, false, None, 10).unwrap()[0].reason
    };
    assert_eq!(reason("u_alice"), ActivityReason::Reply);
    assert_eq!(reason("u_carol"), ActivityReason::Reply);
    assert_eq!(reason("u_dan"), ActivityReason::Following);
    assert!(store.activity_page("u_bob", ActivityFilter::All, false, None, 10).unwrap().is_empty());
}

#[test]
fn a_mention_reaches_the_one_subject_of_an_alias() {
    let mut store = forum();
    store.add_reply(&post("r1", "d", "carol", 25)).unwrap();
    let told = store
        .add_reply_with_activity(
            &post("r2", "d", "alice", 30),
            &names(&["Carol", "carol", "nobody"]),
            "a1",
        )
        .unwrap();
    assert_eq!(told.delivery_subjects, ["u_carol"]);
    let page = store.activity_page("u_carol", ActivityFilter::All, false, None, 10).unwrap();
    assert_eq!(page[0].reason, ActivityReason::Mention);
    assert_eq!(page[0].thread_title, "Title of d");
    assert_eq!(page[0].post_body_md, "Body of r2");
    assert_eq!(page[0].actor_email, "alice@steadholme.local");
    assert!(!page[0].read);

    let mut other = post("r3", "d", "carol", 40);
    other.author_sub = "u_other".to_string();
    store.add_reply(&other).unwrap();
    let told = store
        .add_reply_with_activity(&post("r4", "d", "alice", 50), &names(&["carol"]), "a2")
        .unwrap();
    assert!(told.delivery_subjects.is_empty(), "an alias of two subjects names neither");
}

#[test]
fn opening_a_thread_tells_the_mentioned_only() {
    let mut store = forum();
    store.add_reply(&post("r1", "d", "bob", 25)).unwrap();
    let told = store
        .create_thread_with_activity(
            &thread("n", "talk", "alice", 60),
            &post("n_op", "n", "alice", 60),
            &names(&["bob", "alice"]),
            "a1",
        )
        .unwrap();
    assert_eq!(told.delivery_subjects, ["u_bob"]);
    assert_eq!(store.count_mentions_for_user("bob").unwrap(), 1);
    assert_eq!(store.mentions_for_user("alice", 5).unwrap()[0].post_id, "n_op");
}

#[test]
fn a_post_mentions_a_bounded_number_of_aliases() {
    let mut store = forum();
    let many: Vec<String> = (0..=MAX_MENTIONS_PER_POST).map(|k| format!("name{k}")).collect();
    let error = store
        .add_reply_with_activity(&post("r1", "d", "bob", 30), &many, "a1")
        .unwrap_err();
    assert_eq!(
        error.message(),
        "invalid store operation: a post may mention at most 32 aliases"
    );
    assert_eq!(store.get_post("r1").unwrap(), None);
}

#[test]
fn activity_pages_continue_and_filter() {
    let mut store = forum();
    for k in 1..=3 {
        store
            .add_reply_with_activity(
                &post(&format!("r{k}"), "d", "bob", 30 + k),
                &[],
                &format!("a{k}"),
            )
            .unwrap();
    }
    store.add_reply(&post("x", "q", "alice", 35)).unwrap();
    store.mutate_accepted_answer_with_activity("q", accept("x"), "a9", "u_bob", 90).unwrap();
    let ids = |filter: ActivityFilter, before: Option<&ActivityCursor>, limit: i64| -> Vec<String> {
        store
            .activity_page("u_alice", filter, false, before, limit)
            .unwrap()
            .into_iter()
            .map(|item| item.event.id)
            .collect()
    };
    assert_eq!(ids(ActivityFilter::All, None, 2), ["a9", "a3"]);
    let cursor = ActivityCursor { created_at: 33, id: "a3".to_string() };
    assert_eq!(ids(ActivityFilter::All, Some(&cursor), 9), ["a2", "a1"]);
    assert_eq!(ids(ActivityFilter::Reason(ActivityReason::Answer), None, 9), ["a9"]);
    assert_eq!(ids(ActivityFilter::All, None, i64::MAX), ["a9", "a3", "a2", "a1"]);
    let replies = ActivityFilter::Reason(ActivityReason::Reply);
    assert_eq!(ids(replies, None, i64::MAX), ["a3", "a2", "a1"]);
    assert_eq!(ids(replies, None, 2), ["a3", "a2"]);
    assert_eq!(store.unread_activity_count("u_alice").unwrap(), 4);
    store.delete_post("r2").unwrap();
    assert_eq!(store.unread_activity_count("u_alice").unwrap(), 3);
}

#[test]
fn activity_marks_read_back_and_spare_others() {
    let mut store = forum();
    store.set_thread_follow_level("d", "u_dan", ThreadFollowLevel::Watch, 26).unwrap();
    store.add_reply_with_activity(&post("r1", "d", "bob", 30), &[], "a1").unwrap();
    store.add_reply_with_activity(&post("r2", "d", "bob", 31), &[], "a2").unwrap();
    store.set_activity_read("a1", "u_alice", true, 40).unwrap();
    assert_eq!(store.unread_activity_count("u_alice").unwrap(), 1);
    assert_eq!(store.unread_activity_count("u_dan").unwrap(), 2);
    let unread = store.activity_page("u_alice", ActivityFilter::All, true, None, 9).unwrap();
    assert_eq!(unread.len(), 1);
    assert_eq!(unread[0].event.id, "a2");
    store.set_activity_read("a1", "u_alice", false, 41).unwrap();
    assert_eq!(store.unread_activity_count("u_alice").unwrap(), 2);

    for (id, viewer) in [("a1", "u_stranger"), ("absent", "u_alice")] {
        let error = store.set_activity_read(id, viewer, true, 50).unwrap_err();
        assert!(matches!(error, StoreError::NotFound(_)));
        assert_eq!(error.message(), "store record not found: activity not found");
    }

    let marked = store
        .mark_activity_batch_read("u_alice", &names(&["a1", "a2", "a1"]), 60)
        .unwrap();
    assert_eq!(marked, 2);
    assert_eq!(store.unread_activity_count("u_alice").unwrap(), 0);
    assert_eq!(store.mark_activity_batch_read("u_alice", &names(&["a1"]), 61).unwrap(), 0);
    let many: Vec<String> = (0..=MAX_ACTIVITY_BATCH).map(|k| format!("a{k}")).collect();
    let error = store.mark_activity_batch_read("u_alice", &many, 70).unwrap_err();
    assert_eq!(
        error.message(),
        "invalid store operation: activity batch may contain at most 30 ids"
    );
}

#[test]
fn focus_levels_read_back_and_are_private() {
    let mut store = forum();
    store.set_category_focus_level("u_bob", "help", CategoryFocusLevel::Priority, 30).unwrap();
    store.set_category_focus_level("u_bob", "talk", CategoryFocusLevel::Mute, 31).unwrap();
    assert_eq!(
        store.category_focus_level("u_bob", "help").unwrap(),
        CategoryFocusLevel::Priority
    );
    assert_eq!(store.category_focus_level("u_alice", "help").unwrap(), CategoryFocusLevel::Unset);
    let rules = store.category_focus_rules("u_bob").unwrap();
    assert_eq!(rules.len(), 2);
    assert!(store.category_focus_rules("u_alice").unwrap().is_empty());
    store.set_category_focus_level("u_bob", "help", CategoryFocusLevel::Unset, 32).unwrap();
    assert_eq!(store.category_focus_rules("u_bob").unwrap().len(), 1);

    let error = store
        .set_category_focus_level("u_bob", "absent", CategoryFocusLevel::Follow, 33)
        .unwrap_err();
    assert_eq!(error.message(), "store record not found: category not found");
    let error =
        store.set_category_focus_level("", "help", CategoryFocusLevel::Follow, 33).unwrap_err();
    assert_eq!(error.message(), "invalid store operation: invalid category focus rule");
    let error =
        store.set_category_focus_level("u_bob", "help", CategoryFocusLevel::Follow, -1).unwrap_err();
    assert_eq!(error.message(), "invalid store operation: invalid category focus rule");
}

#[test]
fn focus_rules_are_bounded() {
    let mut store = forum();
    for k in 0..=MAX_CATEGORY_FOCUS_RULES {
        store.create_category(&category(&format!("c{k}"), 9, CategoryFormat::Discussion)).unwrap();
    }
    for k in 0..MAX_CATEGORY_FOCUS_RULES {
        store
            .set_category_focus_level("u_bob", &format!("c{k}"), CategoryFocusLevel::Follow, 30)
            .unwrap();
    }
    let last = format!("c{MAX_CATEGORY_FOCUS_RULES}");
    let error =
        store.set_category_focus_level("u_bob", &last, CategoryFocusLevel::Follow, 30).unwrap_err();
    assert_eq!(
        error.message(),
        "invalid store operation: a user may keep at most 64 category focus rules"
    );
    store.set_category_focus_level("u_bob", "c0", CategoryFocusLevel::Mute, 31).unwrap();
}

#[test]
fn the_focus_page_shows_priority_first_and_keeps_overrides() {
    let mut store = forum();
    store
        .create_thread(&thread("d2", "talk", "alice", 40), &post("d2_op", "d2", "alice", 40))
        .unwrap();
    store.set_category_focus_level("u_bob", "help", CategoryFocusLevel::Priority, 50).unwrap();
    store.set_category_focus_level("u_bob", "talk", CategoryFocusLevel::Mute, 50).unwrap();
    store.set_thread_follow_level("d2", "u_bob", ThreadFollowLevel::Watch, 51).unwrap();
    let page = store.category_focus_page("u_bob", 10, 100).unwrap();
    let shown: Vec<(&str, CategoryFocusReason)> =
        page.iter().map(|item| (item.thread.id.as_str(), item.reason)).collect();
    assert_eq!(
        shown,
        [
            ("q", CategoryFocusReason::CategoryPriority),
            ("d2", CategoryFocusReason::ThreadWatchOverride),
        ]
    );
    store.set_thread_follow_level("q", "u_bob", ThreadFollowLevel::Mute, 52).unwrap();
    let page = store.category_focus_page("u_bob", 10, 100).unwrap();
    assert_eq!(page.len(), 1);
    assert_eq!(page[0].thread.id, "d2");
    let error = store.category_focus_page("u_bob", MAX_CATEGORY_FOCUS_PAGE + 1, 100).unwrap_err();
    assert_eq!(
        error.message(),
        "invalid store operation: focus page may request at most 30 rows"
    );
    let error = store.category_focus_page("u_bob", 1, -1).unwrap_err();
    assert_eq!(error.message(), "invalid store operation: focus as_of must be non-negative");
}

#[test]
fn reasons_are_ranked() {
    assert_eq!(
        category_focus_reason(CategoryFocusLevel::Priority, ThreadFollowLevel::Unset),
        Some(CategoryFocusReason::CategoryPriority)
    );
    assert_eq!(
        category_focus_reason(CategoryFocusLevel::Mute, ThreadFollowLevel::Follow),
        Some(CategoryFocusReason::ThreadFollowOverride)
    );
    assert_eq!(category_focus_reason(CategoryFocusLevel::Mute, ThreadFollowLevel::Unset), None);
    assert_eq!(category_focus_reason(CategoryFocusLevel::Priority, ThreadFollowLevel::Mute), None);
    assert_eq!(
        catch_up_reason(CatchUpView::Updates, ThreadFollowLevel::Unset, true, true, true, true),
        Some(CatchUpReason::Authored)
    );
    assert_eq!(
        catch_up_reason(CatchUpView::Updates, ThreadFollowLevel::Unset, false, true, true, true),
        Some(CatchUpReason::Bookmarked)
    );
    assert_eq!(
        catch_up_reason(CatchUpView::Updates, ThreadFollowLevel::Unset, false, false, false, true),
        Some(CatchUpReason::ContinueReading)
    );
    assert_eq!(
        catch_up_reason(CatchUpView::Following, ThreadFollowLevel::Unset, true, true, true, true),
        None
    );
    assert_eq!(
        catch_up_reason(CatchUpView::Updates, ThreadFollowLevel::Mute, true, true, true, true),
        None
    );
}

#[test]
fn deliveries_are_distinct_and_never_to_the_actor() {
    assert!(subject_delivery("u_a", "u_a", ActivityReason::Reply).is_none());
    assert!(subject_delivery("", "u_a", ActivityReason::Reply).is_none());
    let one = |to: &str, reason: ActivityReason| subject_delivery(to, "u_x", reason).unwrap();
    let mut list = vec![
        one("u_b", ActivityReason::Following),
        one("u_a", ActivityReason::Reply),
        one("u_b", ActivityReason::Following),
        one("u_b", ActivityReason::Mention),
    ];
    dedupe_deliveries(&mut list);
    assert_eq!(list.len(), 3);
    assert_eq!(delivery_subjects(&list), ["u_a", "u_b"]);
    assert_eq!(best_activity_reason(&list), Some(ActivityReason::Mention));
    assert_eq!(best_activity_reason(&Vec::new()), None);
    assert!(activity_filter_matches(ActivityFilter::All, ActivityReason::Reply));
    assert!(!activity_filter_matches(
        ActivityFilter::Reason(ActivityReason::Answer),
        ActivityReason::Reply
    ));
}

#[test]
fn aliases_are_trimmed_and_lowered() {
    assert_eq!(normalize_activity_alias("  @Carol "), Some("carol".to_string()));
    assert_eq!(normalize_activity_alias(" "), None);
    assert_eq!(normalize_activity_alias(" @@A.b-C_1 "), Some("a.b-c_1".to_string()));
    assert_eq!(normalize_activity_alias("a.b-c_1"), Some("a.b-c_1".to_string()));
    assert_eq!(normalize_activity_alias("@a.b-c_1"), Some("a.b-c_1".to_string()));
    assert_eq!(normalize_activity_alias("\u{3000}@bob\u{a0}"), Some("bob".to_string()));
    assert_eq!(normalize_activity_alias("\u{200b}bob"), None);
    assert_eq!(normalize_activity_alias(".a"), None);
    assert_eq!(normalize_activity_alias("a b"), None);
    assert_eq!(identity_alias("u_bob", "Bob@steadholme.local"), Some("bob".to_string()));
}

#[test]
fn names_of_levels_and_kinds_read_back() {
    for level in [
        ThreadFollowLevel::Unset,
        ThreadFollowLevel::Watch,
        ThreadFollowLevel::Follow,
        ThreadFollowLevel::Mute,
    ] {
        assert_eq!(ThreadFollowLevel::parse(level.as_str()), Some(level));
    }
    for level in [
        CategoryFocusLevel::Unset,
        CategoryFocusLevel::Priority,
        CategoryFocusLevel::Follow,
        CategoryFocusLevel::Mute,
    ] {
        assert_eq!(CategoryFocusLevel::parse(level.as_str()), Some(level));
    }
    assert_eq!(ThreadFollowLevel::parse("loud"), None);
    assert_eq!(CategoryFormat::Question.as_str(), "question");
    assert_eq!(CategoryFormat::Discussion.as_str(), "discussion");
}

#[test]
fn giving_up_a_focus_rule_is_never_refused() {
    let mut store = forum();
    store.set_category_focus_level("u_bob", "help", CategoryFocusLevel::Unset, 30).unwrap();
    assert!(store.category_focus_rules("u_bob").unwrap().is_empty());
}

#[test]
fn a_batch_counts_what_was_unread_or_marks_nothing() {
    let mut store = forum();
    for k in 1..=3 {
        let reply = post(&format!("r{k}"), "d", "bob", 30 + k);
        store.add_reply_with_activity(&reply, &[], &format!("a{k}")).unwrap();
    }
    store.set_activity_read("a1", "u_alice", true, 40).unwrap();
    let error = store
        .mark_activity_batch_read("u_alice", &names(&["a2", "absent"]), 50)
        .unwrap_err();
    assert_eq!(error.message(), "store record not found: activity not found");
    assert_eq!(store.unread_activity_count("u_alice").unwrap(), 2);
    let page = names(&["a1", "a2", "a2"]);
    assert!(store.mark_activity_batch_read("u_stranger", &page, 50).is_err());
    assert_eq!(store.mark_activity_batch_read("u_alice", &page, 60).unwrap(), 1);
    assert_eq!(store.mark_activity_batch_read("u_alice", &page, 61).unwrap(), 0);
    assert_eq!(store.unread_activity_count("u_alice").unwrap(), 1);
    let twice: Vec<String> = (0..=MAX_ACTIVITY_BATCH).map(|_| "a3".to_string()).collect();
    assert!(matches!(
        store.mark_activity_batch_read("u_alice", &twice, 70),
        Err(StoreError::InvalidOperation(_))
    ));
}

#[test]
fn leaving_a_watch_takes_back_only_what_watching_told() {
    let mut store = forum();
    store.add_reply(&post("r0", "d", "dan", 25)).unwrap();
    for who in ["u_dan", "u_eve"] {
        store.set_thread_follow_level("d", who, ThreadFollowLevel::Watch, 26).unwrap();
    }
    store.add_reply_with_activity(&post("r1", "d", "bob", 30), &[], "a1").unwrap();
    let mut answer = post("r2", "d", "bob", 31);
    answer.quoted_post_id = "r0".to_string();
    store.add_reply_with_activity(&answer, &[], "a2").unwrap();
    store.set_activity_read("a2", "u_dan", true, 32).unwrap();
    let page = |store: &InMemoryStore, who: &str| {
        store.activity_page(who, ActivityFilter::All, false, None, 9).unwrap()
    };
    let (alice, dan, eve) = (page(&store, "u_alice"), page(&store, "u_dan"), page(&store, "u_eve"));
    assert_eq!(dan.len(), 2);
    assert_eq!(dan[1].reason, ActivityReason::Following);

    store.set_thread_follow_level("d", "u_dan", ThreadFollowLevel::Follow, 40).unwrap();
    let left = page(&store, "u_dan");
    assert_eq!(left.len(), 1);
    assert_eq!(left[0], dan[0]);
    assert!(left[0].read && left[0].reason == ActivityReason::Reply);
    assert_eq!(page(&store, "u_alice"), alice);
    assert_eq!(page(&store, "u_eve"), eve);
    assert_eq!(store.thread_follow_level("d", "u_eve").unwrap(), ThreadFollowLevel::Watch);
}

#[test]
fn a_refused_reply_teaches_no_alias() {
    let mut store = forum();
    store.add_reply(&post("r1", "d", "bob", 30)).unwrap();
    let error = store.add_reply(&post("r1", "d", "zoe", 31)).unwrap_err();
    assert_eq!(error.message(), "store conflict: catch-up post point already exists");
    let error = store.create_thread(&thread("n", "talk", "zoe", 32), &post("r1", "n", "zoe", 32));
    assert!(matches!(error, Err(StoreError::Conflict(_))));
    assert_eq!(store.get_thread("n").unwrap(), None);
    let told = store
        .add_reply_with_activity(&post("r2", "d", "alice", 40), &names(&["zoe"]), "a1")
        .unwrap();
    assert!(told.delivery_subjects.is_empty(), "nobody has written under the alias");
}
