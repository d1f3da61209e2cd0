//! Categories, threads, and posts: what is stored, refused, read back, and removed.

use agora::model::{Category, CategoryFormat, Post, Thread};
use agora::store::{Heat, InMemoryStore, ReplyAnchor, StoreError, ThreadSort, ThreadStatusFilter};

fn category(id: &str, name: &str, sort_order: i64, format: CategoryFormat) -> Category {
    Category { id: id.to_string(), name: name.to_string(), sort_order, format }
}

fn thread(id: &str, category_id: &str, created_at: i64) -> Thread {
    Thread {
        id: id.to_string(),
        category_id: category_id.to_string(),
        title: format!("Title of {id}"),
        author_sub: "u_alice".to_string(),
        author_email: "alice@steadholme.local".to_string(),
        created_at,
        last_at: created_at,
        locked: false,
        pinned: false,
        accepted_post_id: String::new(),
    }
}

fn post(id: &str, thread_id: &str, created_at: i64) -> Post {
    Post {
        id: id.to_string(),
        thread_id: thread_id.to_string(),
        body_md: format!("Body of {id}"),
        quoted_post_id: String::new(),
        author_sub: "u_bob".to_string(),
        author_email: "bob@steadholme.local".to_string(),
        created_at,
    }
}

/// A discussion category `talk` and a question category `help`.
fn forum() -> InMemoryStore {
    let mut store = InMemoryStore::new();
    store.create_category(&category("talk", "Talk", 1, CategoryFormat::Discussion)).unwrap();
    store.create_category(&category("help", "Help", 2, CategoryFormat::Question)).unwrap();
    store
}

fn open(store: &mut InMemoryStore, id: &str, category_id: &str, at: i64) {
    store.create_thread(&thread(id, category_id, at), &post(&format!("{id}_op"), id, at)).unwrap();
}

fn ids(threads: &[Thread]) -> Vec<&str> {
    threads.iter().map(|t| t.id.as_str()).collect()
}

fn post_ids(posts: &[Post]) -> Vec<&str> {
    posts.iter().map(|p| p.id.as_str()).collect()
}

fn no_heat() -> Vec<Heat> {
    Vec::new()
}

#[test]
fn categories_are_listed_by_order_then_name() {
    let mut store = InMemoryStore::new();
    store.create_category(&category("c", "Zoo", 1, CategoryFormat::Discussion)).unwrap();
    store.create_category(&category("a", "Ant", 2, CategoryFormat::Discussion)).unwrap();
    store.create_category(&category("b", "Bee", 1, CategoryFormat::Question)).unwrap();
    let listed = store.list_categories().unwrap();
    let names: Vec<&str> = listed.iter().map(|c| c.name.as_str()).collect();
    assert_eq!(names, ["Bee", "Zoo", "Ant"]);
}

#[test]
fn seeding_happens_once() {
    let mut store = InMemoryStore::new();
    let defaults = [
        category("one", "One", 1, CategoryFormat::Discussion),
        category("two", "Two", 2, CategoryFormat::Question),
    ];
    store.seed_categories_if_empty(&defaults).unwrap();
    store.rename_category("one", "Renamed").unwrap();
    store.seed_categories_if_empty(&defaults).unwrap();
    assert_eq!(store.list_categories().unwrap().len(), 2);
    assert_eq!(store.get_category("one").unwrap().unwrap().name, "Renamed");
}

#[test]
fn a_second_category_of_one_id_is_ignored() {
    let mut store = forum();
    store.create_category(&category("talk", "Other", 9, CategoryFormat::Question)).unwrap();
    let kept = store.get_category("talk").unwrap().unwrap();
    assert_eq!(kept, category("talk", "Talk", 1, CategoryFormat::Discussion));
    assert_eq!(store.list_categories().unwrap().len(), 2);
}

#[test]
fn category_edits_read_back() {
    let mut store = forum();
    store.rename_category("talk", "Lounge").unwrap();
    store.set_category_order("talk", 7).unwrap();
    store.transition_category_format("talk", CategoryFormat::Question).unwrap();
    let edited = store.get_category("talk").unwrap().unwrap();
    assert_eq!(edited, category("talk", "Lounge", 7, CategoryFormat::Question));
    assert_eq!(store.get_category("absent").unwrap(), None);
    let error = store.transition_category_format("absent", CategoryFormat::Question).unwrap_err();
    assert_eq!(error.message(), "store record not found: category not found");
}

#[test]
fn an_occupied_category_is_kept() {
    let mut store = forum();
    open(&mut store, "t1", "talk", 10);
    let error = store.delete_category("talk").unwrap_err();
    assert_eq!(
        error.message(),
        "invalid store operation: category still has threads — move or delete them first"
    );
    assert_eq!(store.count_threads("talk").unwrap(), 1);
    store.delete_thread("t1").unwrap();
    store.delete_category("talk").unwrap();
    assert_eq!(store.get_category("talk").unwrap(), None);
    assert_eq!(store.count_threads("talk").unwrap(), 0);
}

#[test]
fn a_created_thread_reads_back() {
    let mut store = forum();
    open(&mut store, "t1", "talk", 10);
    assert_eq!(store.get_thread("t1").unwrap(), Some(thread("t1", "talk", 10)));
    assert_eq!(store.first_post_in_thread("t1").unwrap(), Some(post("t1_op", "t1", 10)));
    assert_eq!(store.posts_in_thread("t1").unwrap(), [post("t1_op", "t1", 10)]);
    assert_eq!(store.count_posts("t1").unwrap(), 1);
    assert_eq!(store.get_thread("absent").unwrap(), None);
    assert_eq!(store.first_post_in_thread("absent").unwrap(), None);
}

#[test]
fn a_thread_needs_its_own_first_post() {
    let mut store = forum();
    let error = store.create_thread(&thread("t1", "talk", 10), &post("p", "other", 10)).unwrap_err();
    assert_eq!(
        error.message(),
        "invalid store operation: the original post must belong to the new thread"
    );
    assert_eq!(store.get_thread("t1").unwrap(), None);
    assert_eq!(store.get_post("p").unwrap(), None);
}

#[test]
fn a_reply_reads_back_and_moves_the_thread_forward() {
    let mut store = forum();
    open(&mut store, "t1", "talk", 10);
    store.add_reply(&post("r1", "t1", 25)).unwrap();
    assert_eq!(store.get_post("r1").unwrap(), Some(post("r1", "t1", 25)));
    assert_eq!(store.get_thread("t1").unwrap().unwrap().last_at, 25);
    assert_eq!(store.count_posts("t1").unwrap(), 2);
}

#[test]
fn posts_are_ordered_by_time_then_id_with_the_original_first() {
    let mut store = forum();
    open(&mut store, "t1", "talk", 10);
    for (id, at) in [("r_b", 20), ("r_a", 20), ("r_early", 5)] {
        store.add_reply(&post(id, "t1", at)).unwrap();
    }
    let posts = store.posts_in_thread("t1").unwrap();
    assert_eq!(post_ids(&posts), ["t1_op", "r_early", "r_a", "r_b"]);
    let page = store.replies_page("t1", "t1_op", Some("r_a"), &ReplyAnchor::First, 10).unwrap();
    assert_eq!(post_ids(&page), ["r_early", "r_b"]);
}

#[test]
fn a_locked_thread_accepts_no_reply() {
    let mut store = forum();
    open(&mut store, "t1", "talk", 10);
    store.set_thread_locked("t1", true).unwrap();
    let error = store.add_reply(&post("r1", "t1", 20)).unwrap_err();
    assert!(matches!(error, StoreError::InvalidOperation(_)));
    assert_eq!(error.message(), "invalid store operation: this thread is locked — no new replies");
    assert_eq!(store.get_post("r1").unwrap(), None);
    assert_eq!(store.get_thread("t1").unwrap().unwrap().last_at, 10);
    store.set_thread_locked("t1", false).unwrap();
    store.add_reply(&post("r1", "t1", 20)).unwrap();
}

#[test]
fn a_reply_needs_a_thread_and_quotes_only_from_it() {
    let mut store = forum();
    open(&mut store, "t1", "talk", 10);
    open(&mut store, "t2", "talk", 11);
    let error = store.add_reply(&post("r1", "absent", 20)).unwrap_err();
    assert_eq!(error.message(), "store record not found: thread not found");
    let mut quoting = post("r1", "t1", 20);
    quoting.quoted_post_id = "t2_op".to_string();
    let error = store.add_reply(&quoting).unwrap_err();
    assert_eq!(
        error.message(),
        "invalid store operation: quoted post must belong to this thread"
    );
}

#[test]
fn a_deleted_thread_is_gone_with_its_posts() {
    let mut store = forum();
    open(&mut store, "t1", "talk", 10);
    open(&mut store, "t2", "talk", 11);
    store.add_reply(&post("r1", "t1", 20)).unwrap();
    store.delete_thread("t1").unwrap();
    store.delete_thread("t1").unwrap();
    assert_eq!(store.get_thread("t1").unwrap(), None);
    assert_eq!(store.get_post("t1_op").unwrap(), None);
    assert_eq!(store.get_post("r1").unwrap(), None);
    assert_eq!(store.count_posts("t1").unwrap(), 0);
    assert_eq!(store.posts_in_thread("t2").unwrap().len(), 1);
}

#[test]
fn a_deleted_reply_moves_the_thread_back() {
    let mut store = forum();
    open(&mut store, "t1", "talk", 10);
    store.add_reply(&post("r1", "t1", 20)).unwrap();
    store.add_reply(&post("r2", "t1", 30)).unwrap();
    store.delete_post("r2").unwrap();
    assert_eq!(store.get_thread("t1").unwrap().unwrap().last_at, 20);
    store.delete_post("r2").unwrap();
    let error = store.delete_post("t1_op").unwrap_err();
    assert_eq!(
        error.message(),
        "invalid store operation: the original post cannot be deleted separately; delete the thread"
    );
    assert_eq!(post_ids(&store.posts_in_thread("t1").unwrap()), ["t1_op", "r1"]);
}

#[test]
fn a_thread_update_reads_back() {
    let mut store = forum();
    open(&mut store, "t1", "talk", 10);
    store.add_reply(&post("r1", "t1", 20)).unwrap();
    store.update_thread("t1", "New title", "t1_op", "New body").unwrap();
    assert_eq!(store.get_thread("t1").unwrap().unwrap().title, "New title");
    assert_eq!(store.get_post("t1_op").unwrap().unwrap().body_md, "New body");
    let error = store.update_thread("t1", "Other", "r1", "Other").unwrap_err();
    assert_eq!(
        error.message(),
        "invalid store operation: thread update must target its original post"
    );
    store.update_post("r1", "Edited").unwrap();
    assert_eq!(store.get_post("r1").unwrap().unwrap().body_md, "Edited");
}

#[test]
fn pinned_threads_come_first() {
    let mut store = forum();
    open(&mut store, "t1", "talk", 10);
    open(&mut store, "t2", "talk", 20);
    open(&mut store, "t3", "help", 30);
    store.set_thread_pinned("t1", true).unwrap();
    assert_eq!(ids(&store.recent_threads(10).unwrap()), ["t1", "t3", "t2"]);
    assert_eq!(ids(&store.recent_threads(2).unwrap()), ["t1", "t3"]);
    assert!(store.recent_threads(0).unwrap().is_empty());
    assert!(store.recent_threads(-1).unwrap().is_empty());
    assert_eq!(ids(&store.threads_in_category("talk", 10).unwrap()), ["t1", "t2"]);
    store.set_thread_pinned("t1", false).unwrap();
    assert_eq!(ids(&store.recent_threads(10).unwrap()), ["t3", "t2", "t1"]);
}

#[test]
fn threads_are_listed_by_category_and_status() {
    let mut store = forum();
    open(&mut store, "t1", "talk", 10);
    open(&mut store, "q1", "help", 20);
    let all = store
        .list_threads(None, ThreadSort::Latest, None, ThreadStatusFilter::Any, 10, &no_heat())
        .unwrap();
    assert_eq!(ids(&all), ["q1", "t1"]);
    let talk = store
        .list_threads(Some("talk"), ThreadSort::Latest, None, ThreadStatusFilter::Any, 10, &no_heat())
        .unwrap();
    assert_eq!(ids(&talk), ["t1"]);
    let questions = store
        .list_threads(None, ThreadSort::Top, None, ThreadStatusFilter::Questions, 10, &no_heat())
        .unwrap();
    assert_eq!(ids(&questions), ["q1"]);
    let answered = store
        .list_threads(None, ThreadSort::Top, None, ThreadStatusFilter::Answered, 10, &no_heat())
        .unwrap();
    assert!(answered.is_empty());
    let unanswered = store
        .list_threads(None, ThreadSort::Top, None, ThreadStatusFilter::Unanswered, 10, &no_heat())
        .unwrap();
    assert_eq!(ids(&unanswered), ["q1"]);
}

#[test]
fn search_ignores_case_and_needs_words() {
    let mut store = forum();
    open(&mut store, "t1", "talk", 10);
    open(&mut store, "t2", "talk", 20);
    store.update_thread("t1", "ÉTÉ plans", "t1_op", "100% sure").unwrap();
    let hits = store.search_threads("été", None, ThreadStatusFilter::Any, 10).unwrap();
    assert_eq!(hits.len(), 1);
    assert_eq!(hits[0].thread.id, "t1");
    assert_eq!(hits[0].first_body_md, "100% sure");
    assert_eq!(hits[0].reply_count, 0);
    assert!(!hits[0].matched_in_solution);
    assert_eq!(store.search_threads("100%", None, ThreadStatusFilter::Any, 10).unwrap().len(), 1);
    assert!(store.search_threads("   ", None, ThreadStatusFilter::Any, 10).unwrap().is_empty());
    assert!(store.search_threads("été", None, ThreadStatusFilter::Any, 0).unwrap().is_empty());
    assert!(store.search_threads("été", Some("help"), ThreadStatusFilter::Any, 9).unwrap().is_empty());
}

#[test]
fn digests_carry_the_original_body() {
    let mut store = forum();
    open(&mut store, "t1", "talk", 10);
    store.add_reply(&post("r1", "t1", 5)).unwrap();
    let digests = store.thread_digests(10).unwrap();
    assert_eq!(digests.len(), 1);
    assert_eq!(digests[0].id, "t1");
    assert_eq!(digests[0].category_id, "talk");
    assert_eq!(digests[0].title, "Title of t1");
    assert_eq!(digests[0].first_body_md, "Body of t1_op");
}

#[test]
fn a_moved_thread_changes_its_category_only() {
    let mut store = forum();
    open(&mut store, "t1", "talk", 10);
    store.move_thread_to_category("t1", "help").unwrap();
    assert_eq!(store.get_thread("t1").unwrap(), Some(thread("t1", "help", 10)));
    let error = store.move_thread_to_category("t1", "absent").unwrap_err();
    assert_eq!(error.message(), "invalid store operation: unknown category");
    let error = store.move_thread_to_category("absent", "talk").unwrap_err();
    assert_eq!(error.message(), "store record not found: thread not found");
}

#[test]
fn pages_of_replies_part_at_their_anchor() {
    let mut store = forum();
    open(&mut store, "t1", "talk", 10);
    for at in 1..=6 {
        store.add_reply(&post(&format!("r{at}"), "t1", at * 10 + 10)).unwrap();
    }
    let at = |anchor: ReplyAnchor, limit: i64| -> Vec<String> {
        store
            .replies_page("t1", "t1_op", None, &anchor, limit)
            .unwrap()
            .into_iter()
            .map(|p| p.id)
            .collect()
    };
    assert_eq!(at(ReplyAnchor::First, 2), ["r1", "r2"]);
    assert_eq!(at(ReplyAnchor::After(30, "r2".to_string()), 2), ["r3", "r4"]);
    assert_eq!(at(ReplyAnchor::From(30, "r2".to_string()), 2), ["r2", "r3"]);
    assert_eq!(at(ReplyAnchor::Before(50, "r4".to_string()), 2), ["r3", "r2"]);
    assert_eq!(at(ReplyAnchor::Latest, 2), ["r6", "r5"]);
    assert_eq!(at(ReplyAnchor::First, 3), ["r1", "r2", "r3"]);
    assert_eq!(at(ReplyAnchor::Around(40, "r3".to_string()), 3), ["r3", "r2", "r1"]);
    assert_eq!(at(ReplyAnchor::Around(20, "r1".to_string()), 3), ["r1"]);
    assert!(at(ReplyAnchor::First, 0).is_empty());
    let apart: Vec<String> = store
        .replies_page("t1", "t1_op", Some("r2"), &ReplyAnchor::First, 3)
        .unwrap()
        .into_iter()
        .map(|p| p.id)
        .collect();
    assert_eq!(apart, ["r1", "r3", "r4"]);
}
