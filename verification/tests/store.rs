//! The in-memory store: threads, replies, relationships, answers, and pages.

use agora::model::{Category, CategoryFormat, Post, Thread, ThreadFollowLevel};
use agora::store::{
    AcceptedAnswerAction, CatchUpView, Heat, InMemoryStore, ReplyAnchor, StoreError,
    ThreadPersonalSignals, ThreadSort, ThreadStatusFilter, MAX_CATCH_UP_PAGE,
    MAX_FOR_YOU_CANDIDATES,
};

fn thread(id: &str, title: &str, created_at: i64) -> Thread {
    Thread {
        id: id.to_string(),
        category_id: "general".to_string(),
        title: title.to_string(),
        author_sub: "u_alice".to_string(),
        author_email: "alice@steadholme.local".to_string(),
        created_at,
        last_at: created_at,
        locked: false,
        pinned: false,
        accepted_post_id: String::new(),
    }
}

fn post(id: &str, thread_id: &str, body_md: &str, quoted_post_id: &str, created_at: i64) -> Post {
    Post {
        id: id.to_string(),
        thread_id: thread_id.to_string(),
        body_md: body_md.to_string(),
        quoted_post_id: quoted_post_id.to_string(),
        author_sub: "u_bob".to_string(),
        author_email: "bob@steadholme.local".to_string(),
        created_at,
    }
}

fn seed_category(store: &mut InMemoryStore, id: &str, format: CategoryFormat) {
    store
        .create_category(&Category {
            id: id.to_string(),
            name: id.to_string(),
            sort_order: 0,
            format,
        })
        .unwrap();
}

fn seed_thread(store: &mut InMemoryStore, id: &str, title: &str, created_at: i64) {
    store
        .create_category(&Category {
            id: "general".to_string(),
            name: "General".to_string(),
            sort_order: 0,
            format: CategoryFormat::Discussion,
        })
        .unwrap();
    let t = thread(id, title, created_at);
    let first = post(&format!("p_{id}_op"), id, "OP", "", created_at);
    store.create_thread(&t, &first).unwrap();
}

/// The decayed heat of every thread; its bits order like the numbers, which are never negative.
fn heat_at(store: &InMemoryStore, now: i64) -> Vec<Heat> {
    store
        .heat_requests()
        .into_iter()
        .map(|request| {
            let age_hours = now.saturating_sub(request.created_at).max(0) as f64 / 3600.0;
            let score = request.reply_count.max(0) as f64 / (age_hours + 2.0).powf(1.5);
            Heat { heat: score.to_bits(), ..request }
        })
        .collect()
}

fn list(
    store: &InMemoryStore,
    sort: ThreadSort,
    subscribed: Option<&str>,
    status: ThreadStatusFilter,
    limit: i64,
    now: i64,
) -> Vec<Thread> {
    store.list_threads(None, sort, subscribed, status, limit, &heat_at(store, now)).unwrap()
}

#[test]
fn in_memory_quote_mentions_and_cleanup() {
    let mut store = InMemoryStore::new();
    seed_thread(&mut store, "t_quote", "Quote", 100);

    let reply = post("p_reply", "t_quote", "Thanks @Alice and @alice.", "p_t_quote_op", 100);
    store.add_reply(&reply).unwrap();
    store
        .replace_mentions(&reply.id, &reply.thread_id, &["alice".to_string()], reply.created_at)
        .unwrap();

    let posts = store.posts_in_thread("t_quote").unwrap();
    assert_eq!(posts[1].quoted_post_id, "p_t_quote_op");
    assert_eq!(store.count_mentions_for_user("alice").unwrap(), 1);
    let mentions = store.mentions_for_user("alice", 10).unwrap();
    assert_eq!(mentions[0].post_id, "p_reply");

    let error = store.delete_post("p_t_quote_op").expect_err("OP deletion must use delete_thread");
    assert!(error.message().contains("delete the thread"));

    let follower = post("p_follower", "t_quote", "Following", "p_reply", 120);
    store.add_reply(&follower).unwrap();
    store.delete_post("p_reply").unwrap();
    let follower = store.get_post("p_follower").unwrap().unwrap();
    assert!(follower.quoted_post_id.is_empty(), "deleted quoted posts are cleared from replies");
    assert_eq!(store.count_mentions_for_user("alice").unwrap(), 0);
}

#[test]
fn in_memory_subscriptions_are_explicit_idempotent_and_filterable() {
    let mut store = InMemoryStore::new();
    seed_thread(&mut store, "t_one", "One", 100);
    seed_thread(&mut store, "t_two", "Two", 200);

    store.set_thread_subscription("t_one", "u_alice", true, 300).unwrap();
    store.set_thread_subscription("t_one", "u_alice", true, 301).unwrap();
    assert!(store.is_thread_subscribed("t_one", "u_alice").unwrap());
    let subscribed =
        list(&store, ThreadSort::Latest, Some("u_alice"), ThreadStatusFilter::Any, 10, 400);
    assert_eq!(subscribed.len(), 1);
    assert_eq!(subscribed[0].id, "t_one");

    store.set_thread_subscription("t_one", "u_alice", false, 302).unwrap();
    store.set_thread_subscription("t_one", "u_alice", false, 303).unwrap();
    assert!(!store.is_thread_subscribed("t_one", "u_alice").unwrap());
    assert!(
        list(&store, ThreadSort::Latest, Some("u_alice"), ThreadStatusFilter::Any, 10, 400)
            .is_empty()
    );
}

#[test]
fn in_memory_follow_levels_and_personal_signals_are_bounded() {
    let mut store = InMemoryStore::new();
    seed_thread(&mut store, "t_personal", "Personal", 100);
    let reply = post("p_personal_reply", "t_personal", "joined", "", 101);
    store.add_reply(&reply).unwrap();
    store.set_thread_follow_level("t_personal", "u_bob", ThreadFollowLevel::Follow, 200).unwrap();
    store.ensure_bookmark("u_bob", &reply.id, "bm_1", 201).unwrap();
    store
        .mark_thread_posts_read("u_bob", "t_personal", std::slice::from_ref(&reply.id), 202)
        .unwrap();

    let signals = store.thread_personal_signals("u_bob", &["t_personal".to_string()]).unwrap();
    assert_eq!(signals.len(), 1);
    assert_eq!(signals[0].thread_id, "t_personal");
    assert_eq!(
        signals[0].signals,
        ThreadPersonalSignals {
            follow_level: ThreadFollowLevel::Follow,
            authored: false,
            participated: true,
            bookmarked: true,
            reading_started: true,
            has_unread: true,
        }
    );
    assert!(
        list(&store, ThreadSort::Latest, Some("u_bob"), ThreadStatusFilter::Any, 10, 300)
            .iter()
            .any(|thread| thread.id == "t_personal")
    );

    store.set_thread_follow_level("t_personal", "u_bob", ThreadFollowLevel::Mute, 203).unwrap();
    assert!(
        list(&store, ThreadSort::Latest, Some("u_bob"), ThreadStatusFilter::Any, 10, 300)
            .is_empty()
    );

    let too_many = (0..=MAX_FOR_YOU_CANDIDATES)
        .map(|index| format!("t_candidate_{index}"))
        .collect::<Vec<_>>();
    assert!(matches!(
        store.thread_personal_signals("u_bob", &too_many).unwrap_err(),
        StoreError::InvalidOperation(_)
    ));
}

/// The three commands of one round, in one of the orders in which they can win.
fn catch_up_round(store: &mut InMemoryStore, index: i64, write_first: bool) {
    let generation = store.catch_up_snapshot_generation().unwrap();
    let reply = post(
        &format!("p_catch_lock_order_{index}"),
        "t_catch_lock_order",
        "new reply",
        "",
        index + 2,
    );
    if write_first {
        store.add_reply(&reply).unwrap();
    }
    let page = store
        .catch_up_page(
            "u_reader",
            CatchUpView::Following,
            10_000,
            generation,
            None,
            MAX_CATCH_UP_PAGE + 1,
        )
        .unwrap();
    store.thread_reading_states("u_reader", &["t_catch_lock_order".to_string()]).unwrap();
    if !write_first {
        store.add_reply(&reply).unwrap();
    }
    assert_eq!(page.len(), 1);
    assert_eq!(page[0].reply_count, index);

    // Freeze the new post, then set its first receipt around both read projections. The frozen
    // page must keep the receipt unread in either order.
    let receipt_generation = store.catch_up_snapshot_generation().unwrap();
    if write_first {
        store
            .mark_thread_posts_read("u_reader", "t_catch_lock_order", &[reply.id.clone()], 10_000)
            .unwrap();
    }
    let page = store
        .catch_up_page(
            "u_reader",
            CatchUpView::Updates,
            10_000,
            receipt_generation,
            None,
            MAX_CATCH_UP_PAGE + 1,
        )
        .unwrap();
    store.thread_reading_states("u_reader", &["t_catch_lock_order".to_string()]).unwrap();
    if !write_first {
        store
            .mark_thread_posts_read("u_reader", "t_catch_lock_order", &[reply.id.clone()], 10_000)
            .unwrap();
    }
    assert_eq!(page.len(), 1);
    assert_eq!(page[0].unread_count, 2);
}

#[test]
fn in_memory_catch_up_reading_and_receipt_writes_share_one_lock_order() {
    let mut store = InMemoryStore::new();
    seed_thread(&mut store, "t_catch_lock_order", "Catch-up lock order", 1);
    store
        .set_thread_follow_level("t_catch_lock_order", "u_reader", ThreadFollowLevel::Follow, 1)
        .unwrap();
    for index in 0..64 {
        catch_up_round(&mut store, index, index % 2 == 0);
    }
}

#[test]
fn in_memory_thread_sort_top_and_hot() {
    let mut store = InMemoryStore::new();
    let now = 10_000;
    seed_thread(&mut store, "t_old_busy", "Old busy", now - 7 * 86_400);
    seed_thread(&mut store, "t_recent_small", "Recent small", now - 3_600);

    for i in 0..20 {
        store
            .add_reply(&post(
                &format!("p_old_{i}"),
                "t_old_busy",
                "old reply",
                "",
                now - 7 * 86_400 + i,
            ))
            .unwrap();
    }
    for i in 0..4 {
        store
            .add_reply(&post(
                &format!("p_recent_{i}"),
                "t_recent_small",
                "recent reply",
                "",
                now - 3_600 + i,
            ))
            .unwrap();
    }

    let top = list(&store, ThreadSort::Top, None, ThreadStatusFilter::Any, 10, now);
    assert_eq!(top[0].id, "t_old_busy", "top sorts by reply count");

    let hot = list(&store, ThreadSort::Hot, None, ThreadStatusFilter::Any, 10, now);
    assert_eq!(hot[0].id, "t_recent_small", "hot decays older reply volume");
}

#[test]
fn in_memory_reply_pages_share_all_four_composite_anchor_semantics() {
    let mut store = InMemoryStore::new();
    seed_category(&mut store, "support", CategoryFormat::Question);
    let mut t = thread("t_pages", "Pages", 100);
    t.category_id = "support".to_string();
    let op = post("p_op", &t.id, "OP", "", 100);
    store.create_thread(&t, &op).unwrap();
    for id in ["p_e", "p_c", "p_a", "p_d", "p_b"] {
        store.add_reply(&post(id, &t.id, id, "", 200)).unwrap();
    }
    store
        .mutate_accepted_answer(
            &t.id,
            AcceptedAnswerAction::Accept { post_id: "p_c".to_string() },
        )
        .unwrap();

    let ids = |posts: Vec<Post>| posts.into_iter().map(|post| post.id).collect::<Vec<_>>();
    assert_eq!(
        ids(store.replies_page(&t.id, &op.id, Some("p_c"), &ReplyAnchor::First, 2).unwrap()),
        ["p_a", "p_b"]
    );
    assert_eq!(
        ids(store
            .replies_page(
                &t.id,
                &op.id,
                Some("p_c"),
                &ReplyAnchor::After(200, "p_b".to_string()),
                2
            )
            .unwrap()),
        ["p_d", "p_e"]
    );
    assert_eq!(
        ids(store
            .replies_page(
                &t.id,
                &op.id,
                Some("p_c"),
                &ReplyAnchor::Before(200, "p_e".to_string()),
                2
            )
            .unwrap()),
        ["p_d", "p_b"]
    );
    assert_eq!(
        ids(store.replies_page(&t.id, &op.id, Some("p_c"), &ReplyAnchor::Latest, 2).unwrap()),
        ["p_e", "p_d"]
    );
    assert!(store
        .replies_page(&t.id, &op.id, Some("p_c"), &ReplyAnchor::First, 0)
        .unwrap()
        .is_empty());
}

#[test]
fn in_memory_invalid_answers_are_not_public_status_or_search_solutions() {
    let mut store = InMemoryStore::new();
    seed_category(&mut store, "questions", CategoryFormat::Question);
    seed_category(&mut store, "discussion", CategoryFormat::Discussion);

    let mut target = thread("t_target", "Target", 100);
    target.category_id = "questions".to_string();
    let target_op = post("p_target_op", &target.id, "Target OP", "", 100);
    store.create_thread(&target, &target_op).unwrap();
    let target_reply = post("p_target_reply", &target.id, "CROSS SOLUTION SECRET", "", 101);
    store.add_reply(&target_reply).unwrap();

    let mut missing = thread("t_missing", "Missing pointer", 200);
    missing.category_id = "questions".to_string();
    missing.accepted_post_id = "p_does_not_exist".to_string();
    let missing_op = post("p_missing_op", &missing.id, "Missing OP", "", 200);
    store.create_thread(&missing, &missing_op).unwrap();

    let mut original = thread("t_original", "Original pointer", 300);
    original.category_id = "questions".to_string();
    original.accepted_post_id = "p_original_op".to_string();
    let original_op = post("p_original_op", &original.id, "Original OP", "", 300);
    store.create_thread(&original, &original_op).unwrap();

    let mut cross = thread("t_cross", "Cross pointer", 400);
    cross.category_id = "questions".to_string();
    cross.accepted_post_id = target_reply.id.clone();
    let cross_op = post("p_cross_op", &cross.id, "Cross OP", "", 400);
    store.create_thread(&cross, &cross_op).unwrap();

    let answered = list(&store, ThreadSort::Latest, None, ThreadStatusFilter::Answered, 20, 500);
    assert!(answered.is_empty());
    let unanswered =
        list(&store, ThreadSort::Latest, None, ThreadStatusFilter::Unanswered, 20, 500);
    for expected in ["t_target", "t_missing", "t_original", "t_cross"] {
        assert!(unanswered.iter().any(|thread| thread.id == expected));
    }
    assert!(unanswered.iter().all(|thread| thread.accepted_post_id.is_empty()));
    assert!(store
        .search_threads("  cross solution secret  ", None, ThreadStatusFilter::Any, 20)
        .unwrap()
        .is_empty());
    for invalid in ["t_missing", "t_original", "t_cross"] {
        assert!(store.get_valid_accepted_post(invalid).unwrap().is_none());
    }
    let first_clear =
        store.mutate_accepted_answer("t_missing", AcceptedAnswerAction::Clear).unwrap();
    assert!(first_clear.changed);
    assert!(first_clear.accepted_post.is_none());
    let second_clear =
        store.mutate_accepted_answer("t_missing", AcceptedAnswerAction::Clear).unwrap();
    assert!(!second_clear.changed, "clear is idempotent and needs no target post");

    let mut historical = thread("t_historical", "Historical", 600);
    historical.category_id = "discussion".to_string();
    historical.accepted_post_id = "p_historical_reply".to_string();
    let historical_op = post("p_historical_op", &historical.id, "Historical OP", "", 600);
    store.create_thread(&historical, &historical_op).unwrap();
    store
        .add_reply(&post("p_historical_reply", &historical.id, "LEGACY SOLUTION ONLY", "", 601))
        .unwrap();
    assert_eq!(
        store.get_valid_accepted_post(&historical.id).unwrap().unwrap().id,
        "p_historical_reply"
    );
    let public = list(&store, ThreadSort::Latest, None, ThreadStatusFilter::Any, 20, 700);
    assert!(public
        .iter()
        .find(|thread| thread.id == historical.id)
        .unwrap()
        .accepted_post_id
        .is_empty());
    assert!(store
        .search_threads("legacy solution only", None, ThreadStatusFilter::Any, 20)
        .unwrap()
        .is_empty());
    store.mutate_accepted_answer(&historical.id, AcceptedAnswerAction::Clear).unwrap();
    assert!(store.get_thread(&historical.id).unwrap().unwrap().accepted_post_id.is_empty());
}

/// Every pair of commands, run in one of the two orders in which they can win.
fn guarded_commands(first_wins: bool) {
    let mut store = InMemoryStore::new();
    for id in [
        "q_accept_format",
        "q_accept_delete",
        "q_move_source",
        "q_move_target",
        "q_reply_delete",
        "q_reply_lock",
        "q_create_delete",
    ] {
        seed_category(&mut store, id, CategoryFormat::Question);
    }

    let mut accept_format = thread("t_accept_format", "Accept format", 100);
    accept_format.category_id = "q_accept_format".to_string();
    let accept_format_op = post("p_accept_format_op", &accept_format.id, "OP", "", 100);
    let accept_format_reply =
        post("p_accept_format_reply", &accept_format.id, "answer", "", 101);
    store.create_thread(&accept_format, &accept_format_op).unwrap();
    store.add_reply(&accept_format_reply).unwrap();
    let accept = AcceptedAnswerAction::Accept { post_id: accept_format_reply.id.clone() };
    if first_wins {
        let _ = store.mutate_accepted_answer(&accept_format.id, accept);
        let _ = store.transition_category_format("q_accept_format", CategoryFormat::Discussion);
    } else {
        let _ = store.transition_category_format("q_accept_format", CategoryFormat::Discussion);
        let _ = store.mutate_accepted_answer(&accept_format.id, accept);
    }
    let category = store.get_category("q_accept_format").unwrap().unwrap();
    let raw = store.get_thread(&accept_format.id).unwrap().unwrap();
    assert!(category.format.is_question() || raw.accepted_post_id.is_empty());

    let mut accept_delete = thread("t_accept_delete", "Accept delete", 200);
    accept_delete.category_id = "q_accept_delete".to_string();
    let accept_delete_op = post("p_accept_delete_op", &accept_delete.id, "OP", "", 200);
    let accept_delete_reply =
        post("p_accept_delete_reply", &accept_delete.id, "answer", "", 201);
    store.create_thread(&accept_delete, &accept_delete_op).unwrap();
    store.add_reply(&accept_delete_reply).unwrap();
    let accept = AcceptedAnswerAction::Accept { post_id: accept_delete_reply.id.clone() };
    if first_wins {
        let _ = store.mutate_accepted_answer(&accept_delete.id, accept);
        store.delete_post(&accept_delete_reply.id).unwrap();
    } else {
        store.delete_post(&accept_delete_reply.id).unwrap();
        let _ = store.mutate_accepted_answer(&accept_delete.id, accept);
    }
    assert!(store.get_post(&accept_delete_reply.id).unwrap().is_none());
    assert!(store.get_thread(&accept_delete.id).unwrap().unwrap().accepted_post_id.is_empty());

    let mut moving = thread("t_move_format", "Move format", 300);
    moving.category_id = "q_move_source".to_string();
    let moving_op = post("p_move_format_op", &moving.id, "OP", "", 300);
    let moving_reply = post("p_move_format_reply", &moving.id, "answer", "", 301);
    store.create_thread(&moving, &moving_op).unwrap();
    store.add_reply(&moving_reply).unwrap();
    store
        .mutate_accepted_answer(
            &moving.id,
            AcceptedAnswerAction::Accept { post_id: moving_reply.id.clone() },
        )
        .unwrap();
    if first_wins {
        let _ = store.move_thread_to_category(&moving.id, "q_move_target");
        let _ = store.transition_category_format("q_move_target", CategoryFormat::Discussion);
    } else {
        let _ = store.transition_category_format("q_move_target", CategoryFormat::Discussion);
        let _ = store.move_thread_to_category(&moving.id, "q_move_target");
    }
    let moved = store.get_thread(&moving.id).unwrap().unwrap();
    let target = store.get_category("q_move_target").unwrap().unwrap();
    assert!(
        moved.category_id != "q_move_target"
            || target.format.is_question()
            || moved.accepted_post_id.is_empty()
    );

    let mut reply_delete = thread("t_reply_delete", "Reply delete", 400);
    reply_delete.category_id = "q_reply_delete".to_string();
    let reply_delete_op = post("p_reply_delete_op", &reply_delete.id, "OP", "", 400);
    store.create_thread(&reply_delete, &reply_delete_op).unwrap();
    let concurrent_reply = post("p_reply_delete_race", &reply_delete.id, "reply", "", 401);
    if first_wins {
        let _ = store.add_reply(&concurrent_reply);
        store.delete_thread(&reply_delete.id).unwrap();
    } else {
        store.delete_thread(&reply_delete.id).unwrap();
        let _ = store.add_reply(&concurrent_reply);
    }
    assert!(store.get_thread(&reply_delete.id).unwrap().is_none());
    assert!(store.get_post(&concurrent_reply.id).unwrap().is_none());

    let mut reply_lock = thread("t_reply_lock", "Reply lock", 500);
    reply_lock.category_id = "q_reply_lock".to_string();
    let reply_lock_op = post("p_reply_lock_op", &reply_lock.id, "OP", "", 500);
    store.create_thread(&reply_lock, &reply_lock_op).unwrap();
    let lock_race_reply = post("p_reply_lock_race", &reply_lock.id, "reply", "", 501);
    let reply_result = if first_wins {
        let result = store.add_reply(&lock_race_reply);
        store.set_thread_locked(&reply_lock.id, true).unwrap();
        result
    } else {
        store.set_thread_locked(&reply_lock.id, true).unwrap();
        store.add_reply(&lock_race_reply)
    };
    assert_eq!(reply_result.is_ok(), store.get_post(&lock_race_reply.id).unwrap().is_some());
    assert!(store
        .add_reply(&post("p_reply_after_lock", &reply_lock.id, "late", "", 502))
        .is_err());

    let mut create_race = thread("t_create_delete", "Create delete", 600);
    create_race.category_id = "q_create_delete".to_string();
    let create_race_op = post("p_create_delete_op", &create_race.id, "OP", "", 600);
    if first_wins {
        let _ = store.create_thread(&create_race, &create_race_op);
        let _ = store.delete_category("q_create_delete");
    } else {
        let _ = store.delete_category("q_create_delete");
        let _ = store.create_thread(&create_race, &create_race_op);
    }
    let category_exists = store.get_category("q_create_delete").unwrap().is_some();
    let thread_exists = store.get_thread(&create_race.id).unwrap().is_some();
    assert_eq!(category_exists, thread_exists, "thread and category cannot orphan");
}

#[test]
fn in_memory_guarded_commands_preserve_cross_operation_invariants() {
    guarded_commands(true);
    guarded_commands(false);
}
