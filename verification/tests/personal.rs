//! Reading state, catch-up, bookmarks, reactions, and bans.

use agora::model::{BannedAuthor, Bookmark, Category, CategoryFormat, Post, Thread, ThreadFollowLevel};
use agora::store::rules::{reading_state_from_posts, validate_catch_up_page};
use agora::store::{
    AcceptedAnswerAction, BookmarkCas, BookmarkCursor, BookmarkReminderUpdate, BookmarkState, CatchUpCursor,
    CatchUpQuestionState, CatchUpReason, CatchUpView, InMemoryStore, StoreError,
    MAX_BOOKMARKS_PER_USER, MAX_BOOKMARK_NOTE_CHARS, MAX_BOOKMARK_POST_BATCH, MAX_CATCH_UP_PAGE,
    MAX_REMINDER_HORIZON_SECS, MAX_THREAD_READ_BATCH, MAX_THREAD_READING_STATE_BATCH,
};

fn thread(id: &str, category_id: &str, author: &str, created_at: i64) -> Thread {
    Thread {
        id: id.to_string(),
        category_id: category_id.to_string(),
        title: format!("Title of {id}"),
        author_sub: format!("u_{author}"),
        author_email: format!("{author}@steadholme.local"),
        created_at,
        last_at: created_at,
        locked: false,
        pinned: false,
        accepted_post_id: String::new(),
    }
}

fn post(id: &str, thread_id: &str, author: &str, created_at: i64) -> Post {
    Post {
        id: id.to_string(),
        thread_id: thread_id.to_string(),
        body_md: format!("Body of {id}"),
        quoted_post_id: String::new(),
        author_sub: format!("u_{author}"),
        author_email: format!("{author}@steadholme.local"),
        created_at,
    }
}

/// Thread `t` by alice with two replies of bob, in a question category.
fn forum() -> InMemoryStore {
    let mut store = InMemoryStore::new();
    store
        .create_category(&Category {
            id: "help".to_string(),
            name: "Help".to_string(),
            sort_order: 1,
            format: CategoryFormat::Question,
        })
        .unwrap();
    store
        .create_thread(&thread("t", "help", "alice", 10), &post("op", "t", "alice", 10))
        .unwrap();
    store.add_reply(&post("r1", "t", "bob", 20)).unwrap();
    store.add_reply(&post("r2", "t", "bob", 30)).unwrap();
    store
}

fn names(list: &[&str]) -> Vec<String> {
    list.iter().map(|s| s.to_string()).collect()
}

fn cas(b: &Bookmark) -> BookmarkCas<'_> {
    BookmarkCas { bookmark_id: &b.bookmark_id, version: b.version }
}

#[test]
fn reading_marks_read_back() {
    let mut store = forum();
    let state = store.thread_reading_state("u_eve", "t").unwrap();
    assert!(!state.started);
    assert_eq!(state.unread_count, 3);
    assert_eq!(state.first_unread.unwrap().id, "op");
    assert_eq!(state.last_contiguous_read, None);

    store.mark_thread_posts_read("u_eve", "t", &names(&["op", "r2"]), 40).unwrap();
    let state = store.thread_reading_state("u_eve", "t").unwrap();
    assert!(state.started);
    assert_eq!(state.unread_count, 1);
    assert_eq!(state.first_unread.unwrap().id, "r1");
    assert_eq!(state.last_contiguous_read.unwrap().id, "op");

    store.mark_thread_posts_read("u_eve", "t", &names(&["r1"]), 50).unwrap();
    let state = store.thread_reading_state("u_eve", "t").unwrap();
    assert_eq!(state.unread_count, 0);
    assert_eq!(state.first_unread, None);
    assert_eq!(state.last_contiguous_read.unwrap().id, "r2");
    assert_eq!(store.thread_reading_state("u_other", "t").unwrap().unread_count, 3);
}

#[test]
fn reading_requests_are_checked() {
    let mut store = forum();
    let message = |store: &mut InMemoryStore, viewer: &str, ids: &[&str], at: i64| -> String {
        store.mark_thread_posts_read(viewer, "t", &names(ids), at).unwrap_err().message()
    };
    assert_eq!(
        message(&mut store, "u_eve", &[], 40),
        "invalid store operation: marking read requires at least one post"
    );
    assert_eq!(
        message(&mut store, "", &["op"], 40),
        "invalid store operation: invalid thread reading receipt"
    );
    assert_eq!(
        message(&mut store, "u_eve", &["op"], -1),
        "invalid store operation: invalid thread reading receipt"
    );
    assert_eq!(
        message(&mut store, "u_eve", &["op", "absent"], 40),
        "store record not found: thread post not found"
    );
    let many: Vec<String> = (0..=MAX_THREAD_READ_BATCH).map(|k| format!("p{k}")).collect();
    let error = store.mark_thread_posts_read("u_eve", "t", &many, 40).unwrap_err();
    assert_eq!(
        error.message(),
        "invalid store operation: one reading receipt may contain at most 24 posts"
    );
    assert!(!store.thread_reading_state("u_eve", "t").unwrap().started);

    let wanted = names(&["t", "absent", "t"]);
    let states = store.thread_reading_states("u_eve", &wanted).unwrap();
    assert!(states.iter().any(|entry| entry.thread_id == "t" && entry.state.unread_count == 3));
    let many: Vec<String> = (0..=MAX_THREAD_READING_STATE_BATCH).map(|k| format!("t{k}")).collect();
    let error = store.thread_reading_states("u_eve", &many).unwrap_err();
    assert_eq!(
        error.message(),
        "invalid store operation: reading state accepts at most 200 threads"
    );
}

#[test]
fn a_reading_state_counts_what_is_left() {
    let posts = vec![post("a", "t", "x", 1), post("b", "t", "x", 2), post("c", "t", "x", 3)];
    let state = reading_state_from_posts(&posts, &names(&["a", "c"]));
    assert!(state.started);
    assert_eq!(state.unread_count, 1);
    assert_eq!(state.first_unread, Some(post("b", "t", "x", 2)));
    assert_eq!(state.last_contiguous_read, Some(post("a", "t", "x", 1)));
    let none = reading_state_from_posts(&Vec::new(), &names(&["a"]));
    assert!(!none.started);
    assert_eq!(none.unread_count, 0);
}

#[test]
fn a_catch_up_snapshot_does_not_move() {
    let mut store = forum();
    let generation = store.catch_up_snapshot_generation().unwrap();
    let page = |store: &InMemoryStore| -> Vec<(String, i64)> {
        store
            .catch_up_page("u_alice", CatchUpView::Updates, 100, generation, None, 10)
            .unwrap()
            .into_iter()
            .map(|item| (item.thread.id, item.unread_count))
            .collect()
    };
    let before = page(&store);
    assert_eq!(before, [("t".to_string(), 3)]);
    store.add_reply(&post("r3", "t", "bob", 60)).unwrap();
    store.mark_thread_posts_read("u_alice", "t", &names(&["op"]), 70).unwrap();
    store
        .create_thread(&thread("n", "help", "alice", 80), &post("n_op", "n", "alice", 80))
        .unwrap();
    assert_eq!(page(&store), before);
    assert!(store.catch_up_snapshot_generation().unwrap() > generation);

    let now = store.catch_up_snapshot_generation().unwrap();
    let fresh = store
        .catch_up_page("u_alice", CatchUpView::Updates, 100, now, None, 10)
        .unwrap();
    assert_eq!(fresh.len(), 2);
    assert_eq!(fresh[0].thread.id, "n");
    assert_eq!(fresh[0].reason, CatchUpReason::Authored);
    assert_eq!(fresh[1].unread_count, 3);
    assert_eq!(fresh[1].reply_count, 3);
    assert_eq!(fresh[1].category_name, "Help");
    let cursor = CatchUpCursor {
        view: CatchUpView::Updates,
        as_of: 100,
        snapshot_generation: now,
        activity_at: fresh[0].activity_at,
        thread_id: fresh[0].thread.id.clone(),
    };
    let rest = store
        .catch_up_page("u_alice", CatchUpView::Updates, 100, now, Some(&cursor), 10)
        .unwrap();
    assert_eq!(rest.len(), 1);
    assert_eq!(rest[0].thread.id, "t");
}

#[test]
fn catch_up_views_follow_the_level() {
    let mut store = forum();
    let generation = store.catch_up_snapshot_generation().unwrap();
    let count = |store: &InMemoryStore, view: CatchUpView| -> usize {
        store.catch_up_page("u_eve", view, 100, generation, None, 10).unwrap().len()
    };
    assert_eq!(count(&store, CatchUpView::Updates), 0);
    assert_eq!(count(&store, CatchUpView::Following), 0);
    store.set_thread_follow_level("t", "u_eve", ThreadFollowLevel::Follow, 40).unwrap();
    assert_eq!(count(&store, CatchUpView::Updates), 1);
    assert_eq!(count(&store, CatchUpView::Following), 1);
    let questions = store
        .catch_up_page("u_alice", CatchUpView::Questions, 100, generation, None, 10)
        .unwrap();
    assert_eq!(count(&store, CatchUpView::Questions), 0);
    assert_eq!(questions.len(), 1);
    assert_eq!(questions[0].question_state, Some(CatchUpQuestionState::Waiting));
    store.set_thread_follow_level("t", "u_eve", ThreadFollowLevel::Mute, 41).unwrap();
    assert_eq!(count(&store, CatchUpView::Updates), 0);
    assert_eq!(count(&store, CatchUpView::Following), 0);
    assert_eq!(count(&store, CatchUpView::Questions), 0);
}

#[test]
fn catch_up_requests_are_checked() {
    let store = forum();
    let error = store
        .catch_up_page("u_eve", CatchUpView::Updates, 100, 1_000, None, 10)
        .unwrap_err();
    assert_eq!(
        error.message(),
        "invalid store operation: catch-up snapshot generation is in the future"
    );
    let message = |cursor: Option<&CatchUpCursor>, as_of: i64, limit: i64| -> String {
        validate_catch_up_page(CatchUpView::Updates, as_of, 0, cursor, limit).unwrap_err().message()
    };
    assert_eq!(
        message(None, -1, 5),
        "invalid store operation: catch-up snapshot bounds must be non-negative"
    );
    assert_eq!(
        message(None, 1, MAX_CATCH_UP_PAGE + 2),
        "invalid store operation: catch-up page may request at most 31 rows"
    );
    let mut cursor = CatchUpCursor {
        view: CatchUpView::Following,
        as_of: 1,
        snapshot_generation: 0,
        activity_at: 0,
        thread_id: "t".to_string(),
    };
    assert_eq!(
        message(Some(&cursor), 1, 5),
        "invalid store operation: catch-up cursor does not belong to this view and snapshot"
    );
    cursor.view = CatchUpView::Updates;
    cursor.activity_at = 2;
    assert_eq!(
        message(Some(&cursor), 1, 5),
        "invalid store operation: catch-up cursor is malformed"
    );
}

#[test]
fn saving_a_post_twice_keeps_one_bookmark() {
    let mut store = forum();
    let saved = store.ensure_bookmark("u_eve", "r1", "b1", 40).unwrap();
    assert_eq!(
        saved,
        Bookmark {
            bookmark_id: "b1".to_string(),
            owner_sub: "u_eve".to_string(),
            post_id: "r1".to_string(),
            note: String::new(),
            remind_at: None,
            created_at: 40,
            updated_at: 40,
            version: 1,
        }
    );
    assert_eq!(store.ensure_bookmark("u_eve", "r1", "b2", 50).unwrap(), saved);
    let item = store.get_bookmark("u_eve", "r1").unwrap().unwrap();
    assert_eq!(item.bookmark, saved);
    assert_eq!(item.thread_title, "Title of t");
    assert_eq!(item.post_author_email, "bob@steadholme.local");
    assert_eq!(store.get_bookmark("u_bob", "r1").unwrap(), None);
    let error = store.ensure_bookmark("u_eve", "absent", "b3", 50).unwrap_err();
    assert_eq!(error.message(), "store record not found: post not found");
}

#[test]
fn an_edit_reads_back_and_a_stale_one_conflicts() {
    let mut store = forum();
    let saved = store.ensure_bookmark("u_eve", "r1", "b1", 40).unwrap();
    let edited = store
        .update_bookmark("u_eve", "r1", cas(&saved), "mine", BookmarkReminderUpdate::SetTo(90), 50)
        .unwrap();
    assert_eq!(edited.note, "mine");
    assert_eq!(edited.remind_at, Some(90));
    assert_eq!(edited.version, 2);
    assert_eq!(edited.updated_at, 50);
    assert_eq!(store.get_bookmark("u_eve", "r1").unwrap().unwrap().bookmark, edited);

    let error = store
        .update_bookmark("u_eve", "r1", cas(&saved), "late", BookmarkReminderUpdate::Keep, 60)
        .unwrap_err();
    assert!(matches!(error, StoreError::Conflict(_)));
    assert_eq!(
        error.message(),
        "store conflict: bookmark changed in another tab; reload and retry"
    );
    assert_eq!(store.get_bookmark("u_eve", "r1").unwrap().unwrap().bookmark, edited);

    let kept = store
        .update_bookmark("u_eve", "r1", cas(&edited), "same", BookmarkReminderUpdate::Keep, 61)
        .unwrap();
    assert_eq!(kept.remind_at, Some(90));
    let cleared = store
        .update_bookmark("u_eve", "r1", cas(&kept), "same", BookmarkReminderUpdate::Clear, 62)
        .unwrap();
    assert_eq!(cleared.remind_at, None);
}

#[test]
fn bookmark_edits_are_checked() {
    let mut store = forum();
    let saved = store.ensure_bookmark("u_eve", "r1", "b1", 40).unwrap();
    let edit = |store: &mut InMemoryStore, note: &str, reminder: BookmarkReminderUpdate| -> String {
        store
            .update_bookmark("u_eve", "r1", cas(&saved), note, reminder, 50)
            .unwrap_err()
            .message()
    };
    let long = "x".repeat(MAX_BOOKMARK_NOTE_CHARS + 1);
    assert_eq!(
        edit(&mut store, &long, BookmarkReminderUpdate::Keep),
        "invalid store operation: bookmark note may contain at most 200 characters"
    );
    assert_eq!(
        edit(&mut store, "", BookmarkReminderUpdate::SetTo(50)),
        "invalid store operation: bookmark reminder must be in the future"
    );
    assert_eq!(
        edit(&mut store, "", BookmarkReminderUpdate::SetTo(51 + MAX_REMINDER_HORIZON_SECS)),
        "invalid store operation: bookmark reminder may be at most 10 years in the future"
    );
    store
        .update_bookmark(
            "u_eve",
            "r1",
            cas(&saved),
            &"é".repeat(MAX_BOOKMARK_NOTE_CHARS),
            BookmarkReminderUpdate::SetTo(50 + MAX_REMINDER_HORIZON_SECS),
            50,
        )
        .unwrap();
    let error = store
        .update_bookmark("u_eve", "r2", cas(&saved), "", BookmarkReminderUpdate::Keep, 50)
        .unwrap_err();
    assert_eq!(error.message(), "store record not found: bookmark not found");
}

#[test]
fn a_due_reminder_is_settled() {
    let mut store = forum();
    let saved = store.ensure_bookmark("u_eve", "r1", "b1", 40).unwrap();
    let error = store.complete_due_bookmark("u_eve", "r1", cas(&saved), 90).unwrap_err();
    assert_eq!(error.message(), "invalid store operation: bookmark reminder is not due");
    let set = store
        .update_bookmark("u_eve", "r1", cas(&saved), "", BookmarkReminderUpdate::SetTo(60), 50)
        .unwrap();
    assert_eq!(store.due_bookmark_count("u_eve", 59).unwrap(), 0);
    assert_eq!(store.due_bookmark_count("u_eve", 60).unwrap(), 1);
    let snoozed = store.snooze_bookmark("u_eve", "r1", cas(&set), 80, 70).unwrap();
    assert_eq!(snoozed.remind_at, Some(80));
    assert_eq!(store.due_bookmark_count("u_eve", 70).unwrap(), 0);
    let done = store.complete_due_bookmark("u_eve", "r1", cas(&snoozed), 80).unwrap();
    assert_eq!(done.remind_at, None);
    assert_eq!(store.due_bookmark_count("u_eve", 1_000).unwrap(), 0);
}

#[test]
fn a_removed_bookmark_comes_back_as_another() {
    let mut store = forum();
    let saved = store.ensure_bookmark("u_eve", "r1", "b1", 40).unwrap();
    store.remove_bookmark("u_eve", "r1", cas(&saved)).unwrap();
    assert_eq!(store.get_bookmark("u_eve", "r1").unwrap(), None);
    let error = store.remove_bookmark("u_eve", "r1", cas(&saved)).unwrap_err();
    assert_eq!(error.message(), "store record not found: bookmark not found");
    let again = store.ensure_bookmark("u_eve", "r1", "b2", 50).unwrap();
    assert_eq!(again.bookmark_id, "b2");
    let error = store.remove_bookmark("u_eve", "r1", cas(&saved)).unwrap_err();
    assert!(matches!(error, StoreError::Conflict(_)));
}

#[test]
fn bookmark_pages_continue_by_state() {
    let mut store = forum();
    for (id, at) in [("op", 41), ("r1", 42), ("r2", 43)] {
        store.ensure_bookmark("u_eve", id, &format!("b_{id}"), at).unwrap();
    }
    store.ensure_bookmark("u_bob", "op", "b_bob", 99).unwrap();
    let saved = store.get_bookmark("u_eve", "op").unwrap().unwrap().bookmark;
    store
        .update_bookmark("u_eve", "op", cas(&saved), "", BookmarkReminderUpdate::SetTo(60), 44)
        .unwrap();
    let page = |state: BookmarkState, cursor: Option<&BookmarkCursor>, limit: i64, now: i64| {
        store
            .bookmark_page("u_eve", state, cursor, limit, now)
            .unwrap()
            .into_iter()
            .map(|item| item.bookmark.post_id)
            .collect::<Vec<String>>()
    };
    assert_eq!(page(BookmarkState::All, None, 2, 50), ["r2", "r1"]);
    let cursor = BookmarkCursor { sort_at: 42, post_id: "r1".to_string() };
    assert_eq!(page(BookmarkState::All, Some(&cursor), 9, 50), ["op"]);
    assert_eq!(page(BookmarkState::Scheduled, None, 9, 50), ["op"]);
    assert!(page(BookmarkState::Due, None, 9, 50).is_empty());
    assert_eq!(page(BookmarkState::Due, None, 9, 60), ["op"]);

    let some = store.bookmarks_for_posts("u_eve", &names(&["r1", "absent", "r1"])).unwrap();
    assert_eq!(some.len(), 1);
    let many: Vec<String> = (0..=MAX_BOOKMARK_POST_BATCH).map(|k| format!("p{k}")).collect();
    let error = store.bookmarks_for_posts("u_eve", &many).unwrap_err();
    assert_eq!(
        error.message(),
        "invalid store operation: bookmark post batch may contain at most 32 ids"
    );
}

#[test]
fn bookmarks_per_user_are_bounded() {
    let mut store = forum();
    for k in 0..=MAX_BOOKMARKS_PER_USER {
        store.add_reply(&post(&format!("p{k}"), "t", "bob", 100)).unwrap();
    }
    for k in 0..MAX_BOOKMARKS_PER_USER {
        store.ensure_bookmark("u_eve", &format!("p{k}"), &format!("b{k}"), 200).unwrap();
    }
    let last = format!("p{MAX_BOOKMARKS_PER_USER}");
    let error = store.ensure_bookmark("u_eve", &last, "late", 200).unwrap_err();
    assert_eq!(
        error.message(),
        "invalid store operation: a user may save at most 1000 bookmarks"
    );
    store.ensure_bookmark("u_bob", &last, "other", 200).unwrap();
}

#[test]
fn a_reaction_flips() {
    let mut store = forum();
    assert!(store.toggle_reaction("r1", "u_eve", "heart", 40).unwrap());
    assert!(store.toggle_reaction("r1", "u_bob", "heart", 41).unwrap());
    assert!(store.toggle_reaction("r1", "u_bob", "thumb", 42).unwrap());
    let counts = store.reactions_for_post("r1", Some("u_eve")).unwrap();
    let shown: Vec<(&str, i64, bool)> =
        counts.iter().map(|c| (c.kind.as_str(), c.count, c.mine)).collect();
    assert_eq!(shown, [("heart", 2, true), ("thumb", 1, false)]);
    assert!(!store.toggle_reaction("r1", "u_bob", "thumb", 43).unwrap());
    assert_eq!(store.reactions_for_post("r1", None).unwrap().len(), 1);
    assert!(store.reactions_for_post("r2", None).unwrap().is_empty());
}

#[test]
fn bans_read_back() {
    let mut store = forum();
    let ban = |sub: &str, at: i64| BannedAuthor {
        author_sub: sub.to_string(),
        reason: "spam".to_string(),
        banned_by: "u_admin".to_string(),
        created_at: at,
    };
    store.add_ban(&ban("u_bob", 50)).unwrap();
    store.add_ban(&ban("u_eve", 60)).unwrap();
    assert!(store.is_banned("u_bob").unwrap());
    assert!(!store.is_banned("u_alice").unwrap());
    assert_eq!(store.list_bans().unwrap(), [ban("u_eve", 60), ban("u_bob", 50)]);
    store.remove_ban("u_bob").unwrap();
    store.remove_ban("u_bob").unwrap();
    assert!(!store.is_banned("u_bob").unwrap());
    assert_eq!(store.list_bans().unwrap().len(), 1);
}

#[test]
fn a_deleted_reply_does_not_move_its_thread_in_a_snapshot() {
    let mut store = forum();
    let generation = store.catch_up_snapshot_generation().unwrap();
    let place = |store: &InMemoryStore| -> (i64, i64) {
        let page = store
            .catch_up_page("u_alice", CatchUpView::Updates, 100, generation, None, 10)
            .unwrap();
        (page[0].activity_at, page[0].reply_count)
    };
    assert_eq!(place(&store), (30, 2));
    store.delete_post("r2").unwrap();
    assert_eq!(place(&store), (30, 1));
    assert_eq!(store.get_thread("t").unwrap().unwrap().last_at, 20);
}

#[test]
fn a_due_reminder_is_kept_by_a_note() {
    let mut store = forum();
    let saved = store.ensure_bookmark("u_eve", "r1", "b1", 40).unwrap();
    let set = store
        .update_bookmark("u_eve", "r1", cas(&saved), "", BookmarkReminderUpdate::SetTo(60), 50)
        .unwrap();
    let noted = store
        .update_bookmark("u_eve", "r1", cas(&set), "later", BookmarkReminderUpdate::Keep, 90)
        .unwrap();
    assert_eq!(noted.remind_at, Some(60));
    assert_eq!(noted.note, "later");
}

#[test]
fn a_question_is_solved_by_a_valid_answer() {
    let mut store = forum();
    let generation = store.catch_up_snapshot_generation().unwrap();
    let state = |store: &InMemoryStore| {
        store
            .catch_up_page("u_alice", CatchUpView::Questions, 100, generation, None, 10)
            .unwrap()[0]
            .question_state
    };
    assert_eq!(state(&store), Some(CatchUpQuestionState::Waiting));
    store
        .mutate_accepted_answer("t", AcceptedAnswerAction::Accept { post_id: "r1".to_string() })
        .unwrap();
    assert_eq!(state(&store), Some(CatchUpQuestionState::Solved));
}

#[test]
fn signals_are_given_for_stored_threads_only() {
    let mut store = forum();
    store.ensure_bookmark("u_alice", "r1", "b1", 40).unwrap();
    let entries =
        store.thread_personal_signals("u_alice", &names(&["t", "absent", "t"])).unwrap();
    assert_eq!(entries.len(), 1);
    assert_eq!(entries[0].thread_id, "t");
    let s = entries[0].signals;
    assert!(s.authored && s.participated && s.bookmarked && s.has_unread && !s.reading_started);
}
