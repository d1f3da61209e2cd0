//! The queries of the relational store and the decoding of its rows.

use agora::calendar::utc_fields;
use agora::model::{
    ActivityKind, ActivityReason, BannedAuthor, Category, CategoryFocusLevel, CategoryFormat,
    Thread, ThreadFollowLevel,
};
use agora::relational::decoding::{
    activity_kind_from, activity_reason_from, check_snapshot, decode_focus_row, decode_unread,
    focus_level_from, follow_level_from, StoredFocusRow, StoredUnread,
};
use agora::relational::queries::{
    activity_page_query, bookmark_page_query, bookmarks_for_posts_query, catch_up_page_query,
    like_contains_pattern, list_threads_query, personal_signals_query, reading_states_query,
    replies_page_query, reply_count_of, search_threads_query,
};
use agora::relational::reads::{
    add_ban_statement, catch_up_snapshot_generation_query, category_focus_level_query,
    category_focus_page_query, category_focus_rules_query, count_mentions_for_user_query,
    count_posts_query, count_threads_query, create_category_statement, due_bookmark_count_query,
    first_post_in_thread_query, get_bookmark_query, get_category_query, get_post_query,
    get_thread_query, get_valid_accepted_post_query, is_banned_query, list_bans_query,
    list_categories_query, mentions_for_user_query, posts_in_thread_query,
    reactions_for_post_query, recent_threads_query, remove_ban_statement,
    rename_category_statement, set_category_order_statement, set_thread_locked_statement,
    set_thread_pinned_statement, thread_digests_query, thread_follow_level_query,
    threads_in_category_query, unread_activity_count_query, update_post_statement,
};
use agora::relational::statement::{Param, Statement};
use agora::store::{
    ActivityCursor, ActivityFilter, BookmarkCursor, BookmarkState, CatchUpView,
    CategoryFocusReason, ReplyAnchor, ThreadSort, ThreadStatusFilter,
};
use agora::views::{fmt_ts, iso8601, rel_time};

fn params(s: &Statement) -> Vec<String> {
    s.params
        .iter()
        .map(|p| match p {
            Param::Text(t) => t.clone(),
            Param::OptText(t) => format!("{t:?}"),
            Param::Int(n) => format!("{n}"),
            Param::OptInt(n) => format!("{n:?}"),
            Param::Flag(b) => format!("{b}"),
        })
        .collect()
}

fn names(list: &[&str]) -> Vec<String> {
    list.iter().map(|s| s.to_string()).collect()
}

/// Every parameter that the text names is bound, and no other.
fn assert_bound(s: &Statement) {
    for k in 1..=s.params.len() {
        assert!(s.sql.contains(&format!("${k}")), "${k} is not named in {}", s.sql);
    }
    assert!(!s.sql.contains(&format!("${}", s.params.len() + 1)), "{}", s.sql);
}

#[test]
fn a_search_pattern_is_literal() {
    assert_eq!(like_contains_pattern("50%_!a\\"), "%50!%!_!!a\\%");
    assert_eq!(like_contains_pattern(""), "%%");
}

#[test]
fn thread_lists_are_limited_and_bound() {
    let status = ThreadStatusFilter::Any;
    assert!(list_threads_query(None, ThreadSort::Latest, None, status, 0, 9).is_none());
    for sort in [ThreadSort::Latest, ThreadSort::Top, ThreadSort::Hot] {
        for category in [None, Some("c")] {
            for viewer in [None, Some("u")] {
                let s = list_threads_query(category, sort, viewer, status, 5, 9).unwrap();
                assert_bound(&s);
                assert!(s.sql.contains("LIMIT"));
                assert!(params(&s).contains(&"5".to_string()));
                assert_eq!(params(&s).contains(&"c".to_string()), category.is_some());
                assert_eq!(params(&s).contains(&"u".to_string()), viewer.is_some());
            }
        }
    }
    let s = search_threads_query(" a% ", Some("c"), ThreadStatusFilter::Answered, 5).unwrap();
    assert_bound(&s);
    assert!(params(&s).contains(&"%a!%%".to_string()));
    assert!(search_threads_query("  ", None, status, 5).is_none());
    assert_eq!(reply_count_of(3), 2);
    assert_eq!(reply_count_of(0), 0);
}

#[test]
fn reply_pages_are_bound() {
    for anchor in [
        ReplyAnchor::First,
        ReplyAnchor::From(1, "p".to_string()),
        ReplyAnchor::After(1, "p".to_string()),
        ReplyAnchor::Before(1, "p".to_string()),
        ReplyAnchor::Latest,
        ReplyAnchor::Around(1, "p".to_string()),
    ] {
        for excluded in [None, Some("x")] {
            assert_bound(&replies_page_query("t", "op", excluded, &anchor, 5));
        }
    }
}

#[test]
fn personal_queries_are_bound_and_bounded() {
    let s = personal_signals_query("u", &names(&["a", "b"])).unwrap().unwrap();
    assert_bound(&s);
    assert!(personal_signals_query("u", &[]).unwrap().is_none());
    let many: Vec<String> = (0..201).map(|k| format!("t{k}")).collect();
    assert_eq!(
        personal_signals_query("u", &many).unwrap_err().message(),
        "invalid store operation: personal signals accept at most 200 threads"
    );
    assert_bound(&reading_states_query("u", &names(&["a"])).unwrap().unwrap());
    assert_eq!(
        reading_states_query("u", &many).unwrap_err().message(),
        "invalid store operation: reading state accepts at most 200 threads"
    );
    let s = bookmarks_for_posts_query("u", &names(&["b", "a", "b"])).unwrap().unwrap();
    assert_bound(&s);
    assert_eq!(params(&s), ["u", "b", "a", "b"]);
    assert!(bookmarks_for_posts_query("u", &vec![]).unwrap().is_none());

    let cursor = BookmarkCursor { sort_at: 4, post_id: "p".to_string() };
    for state in [BookmarkState::All, BookmarkState::Due, BookmarkState::Scheduled] {
        assert_bound(&bookmark_page_query("u", state, None, 5, 9));
        assert_bound(&bookmark_page_query("u", state, Some(&cursor), 5, 9));
    }
    for view in [CatchUpView::Updates, CatchUpView::Following, CatchUpView::Questions] {
        assert_bound(&catch_up_page_query("u", view, 9, 3, None, 5));
    }
    let before = ActivityCursor { created_at: 4, id: "a".to_string() };
    let filter = ActivityFilter::Reason(ActivityReason::Reply);
    assert_bound(&activity_page_query("u", filter, true, Some(&before), 5));
    assert_bound(&activity_page_query("u", ActivityFilter::All, false, None, 5));
}

#[test]
fn stored_names_are_decoded_or_refused() {
    assert_eq!(follow_level_from("t", "mute").unwrap(), ThreadFollowLevel::Mute);
    assert!(follow_level_from("t", "loud").unwrap_err().message().contains("loud"));
    assert_eq!(focus_level_from("c", "priority").unwrap(), CategoryFocusLevel::Priority);
    assert!(focus_level_from("c", "loud").is_err());
    assert_eq!(activity_kind_from("answer_accepted").unwrap(), ActivityKind::AnswerAccepted);
    assert_eq!(
        activity_kind_from("x").unwrap_err().message(),
        "store error: unknown activity kind: x"
    );
    assert_eq!(activity_reason_from("mention").unwrap(), ActivityReason::Mention);
    assert_eq!(
        activity_reason_from("x").unwrap_err().message(),
        "store error: unknown activity reason: x"
    );
    assert!(check_snapshot(5, 5).is_ok());
    assert_eq!(
        check_snapshot(6, 5).unwrap_err().message(),
        "invalid store operation: catch-up snapshot generation is in the future"
    );
}

#[test]
fn a_focus_row_is_decoded() {
    let stored = |level: &str| StoredFocusRow {
        thread: Thread {
            id: "t".to_string(),
            category_id: "c".to_string(),
            title: String::new(),
            author_sub: String::new(),
            author_email: String::new(),
            created_at: 1,
            last_at: 1,
            locked: false,
            pinned: false,
            accepted_post_id: String::new(),
        },
        category: Category {
            id: "c".to_string(),
            name: "C".to_string(),
            sort_order: 1,
            format: CategoryFormat::Discussion,
        },
        category_level: level.to_string(),
        thread_level: "none".to_string(),
    };
    let item = decode_focus_row(stored("follow")).unwrap();
    assert_eq!(item.reason, CategoryFocusReason::CategoryFollow);
    assert!(decode_focus_row(stored("loud")).is_err());
}

#[test]
fn an_incomplete_unread_post_is_refused() {
    let stored = |thread_id: Option<&str>| StoredUnread {
        id: "p".to_string(),
        thread_id: thread_id.map(|s| s.to_string()),
        body_md: Some("b".to_string()),
        quoted_post_id: Some(String::new()),
        author_sub: Some("u".to_string()),
        author_email: Some("e".to_string()),
        created_at: Some(3),
    };
    assert_eq!(decode_unread(stored(Some("t"))).unwrap().created_at, 3);
    assert!(decode_unread(stored(None)).is_err());
}

#[test]
fn the_calendar_knows_leap_years_and_its_bounds() {
    assert_eq!(fmt_ts(0), "1970-01-01 00:00 UTC");
    assert_eq!(fmt_ts(951_782_400), "2000-02-29 00:00 UTC");
    assert_eq!(iso8601(951_868_799), "2000-02-29T23:59:59Z");
    assert_eq!(fmt_ts(-1), "1969-12-31 23:59 UTC");
    assert_eq!(fmt_ts(-62_198_755_200), "-001-01-01 00:00 UTC");
    assert_eq!(iso8601(253_402_300_799), "9999-12-31T23:59:59Z");
    assert_eq!(fmt_ts(253_402_300_800), "253402300800");
    assert!(utc_fields(253_402_300_800).is_none());
    let f = utc_fields(1_700_000_000).unwrap();
    assert_eq!((f.year, f.month, f.day), (2023, 11, 14));
    assert_eq!((f.hour, f.minute, f.second), (22, 13, 20));
}

#[test]
fn relative_times_round_down() {
    assert_eq!(rel_time(100, 104), "just now");
    assert_eq!(rel_time(100, 105), "5s ago");
    assert_eq!(rel_time(0, 59), "59s ago");
    assert_eq!(rel_time(0, 119), "1m ago");
    assert_eq!(rel_time(0, 7_199), "1h ago");
    assert_eq!(rel_time(0, 172_799), "1d ago");
    assert_eq!(rel_time(i64::MAX, i64::MIN), "just now");
    assert_eq!(rel_time(i64::MIN, i64::MAX), "106751991167300d ago");
}

#[test]
fn fixed_reads_are_bound() {
    for s in [
        list_categories_query(),
        get_category_query("c"),
        count_threads_query("c"),
        rename_category_statement("c", "n"),
        set_category_order_statement("c", 3),
        get_thread_query("t"),
        count_posts_query("t"),
        get_post_query("p"),
        get_valid_accepted_post_query("t"),
        posts_in_thread_query("t"),
        first_post_in_thread_query("t"),
        update_post_statement("p", "b"),
        set_thread_locked_statement("t", true),
        set_thread_pinned_statement("t", true),
        count_mentions_for_user_query("n"),
        mentions_for_user_query("n", 5),
        thread_follow_level_query("t", "u"),
        category_focus_level_query("u", "c"),
        catch_up_snapshot_generation_query(),
        unread_activity_count_query("u"),
        due_bookmark_count_query("u", 9),
        get_bookmark_query("u", "p"),
        reactions_for_post_query("p", None),
        list_bans_query(),
        is_banned_query("u"),
        remove_ban_statement("u"),
        recent_threads_query(5).unwrap(),
        threads_in_category_query("c", 5).unwrap(),
        thread_digests_query(5).unwrap(),
        category_focus_rules_query("u").unwrap(),
        category_focus_page_query("u", 5, 9).unwrap().unwrap(),
    ] {
        assert_bound(&s);
    }
    assert_eq!(params(&update_post_statement("p", "b")), ["b", "p"]);
    assert_eq!(params(&set_thread_locked_statement("t", true)), ["true", "t"]);
    assert_eq!(params(&reactions_for_post_query("p", None)), ["p", ""]);
    assert_eq!(params(&reactions_for_post_query("p", Some("u"))), ["p", "u"]);
    assert_eq!(params(&category_focus_page_query("u", 5, 9).unwrap().unwrap()), ["u", "9", "5"]);
    assert!(recent_threads_query(0).is_none());
    assert!(threads_in_category_query("c", -1).is_none());
    assert!(thread_digests_query(0).is_none());
    assert!(category_focus_rules_query(" ").is_none());
    assert!(category_focus_page_query("u", 0, 9).unwrap().is_none());
    assert!(category_focus_page_query(" ", 5, 9).unwrap().is_none());
    assert_eq!(
        category_focus_page_query("u", 31, 9).unwrap_err().message(),
        "invalid store operation: focus page may request at most 30 rows"
    );
    let category = Category {
        id: "c".to_string(),
        name: "C".to_string(),
        sort_order: 4,
        format: CategoryFormat::Question,
    };
    assert_eq!(params(&create_category_statement(&category)), ["c", "C", "4", "question"]);
    let ban = BannedAuthor {
        author_sub: "u".to_string(),
        reason: "r".to_string(),
        banned_by: "b".to_string(),
        created_at: 4,
    };
    assert_eq!(params(&add_ban_statement(&ban)), ["u", "r", "b", "4"]);
}
