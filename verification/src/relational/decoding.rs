//! From stored rows to the records callers see. A stored name that is unknown, or a row that
//! contradicts the query it came from, is a failure of the backend.

use vstd::prelude::*;
use vstd::string::StringExecFns;

use crate::model::{
    ActivityKind, ActivityReason, Category, CategoryFocusLevel, Post, PostRow, Thread,
    ThreadFollowLevel,
};
use crate::relational::moderating::{format_from, stored_format};
use crate::relational::queries::{replies_of, reply_count_of};
use crate::store::rules::{catch_up_reason, catch_up_why, category_focus_reason, focus_why};
use crate::store::types::{
    CatchUpItem, CatchUpItemRow, CatchUpQuestionState, CatchUpReason, CatchUpView,
    CategoryFocusItem, CategoryFocusItemRow, Failure, StoreError, invalid, plain, single,
};

verus! {

/// The failure of an unknown stored name.
pub open spec fn unknown(what: Seq<char>, id: Seq<char>, name: Seq<char>) -> Failure {
    Failure::Backend(what + id + ": "@ + name)
}

fn unknown_name(what: &str, id: &str, name: &str) -> (e: StoreError)
    ensures
        e@ == unknown(what@, id@, name@),
{
    StoreError::Backend(what.to_owned().concat(id).concat(": ").concat(name))
}

/// The failure of an unknown focus level.
pub open spec fn unknown_focus_level(category_id: Seq<char>, name: Seq<char>) -> Failure {
    unknown("unknown category focus level for "@, category_id, name)
}

/// The focus level with a stored name.
pub fn focus_level_from(category_id: &str, name: &str) -> (r: Result<CategoryFocusLevel, StoreError>)
    ensures
        plain(r) == match CategoryFocusLevel::named(name@) {
            Some(level) => Ok(level),
            None => Err(unknown_focus_level(category_id@, name@)),
        },
{
    match CategoryFocusLevel::parse(name) {
        Some(level) => Ok(level),
        None => Err(unknown_name("unknown category focus level for ", category_id, name)),
    }
}

/// The follow level with a stored name.
pub fn follow_level_from(thread_id: &str, name: &str) -> (r: Result<ThreadFollowLevel, StoreError>)
    ensures
        plain(r) == match ThreadFollowLevel::named(name@) {
            Some(level) => Ok(level),
            None => Err(unknown("unknown thread follow level for "@, thread_id@, name@)),
        },
{
    match ThreadFollowLevel::parse(name) {
        Some(level) => Ok(level),
        None => Err(unknown_name("unknown thread follow level for ", thread_id, name)),
    }
}

// ---------------------------------------------------------------------------
// The focus page.
// ---------------------------------------------------------------------------

/// A row of the focus page as it is stored.
pub struct StoredFocusRow {
    pub thread: Thread,
    pub category: Category,
    pub category_level: String,
    pub thread_level: String,
}

/// The item of a row of the focus page.
pub open spec fn focus_row_item(row: StoredFocusRow) -> Result<CategoryFocusItemRow, Failure> {
    match CategoryFocusLevel::named(row.category_level@) {
        None => Err(unknown_focus_level(row.category@.id, row.category_level@)),
        Some(category_level) => match ThreadFollowLevel::named(row.thread_level@) {
            None => Err(
                Failure::Backend(
                    "unknown thread follow level in category focus: "@ + row.thread_level@,
                ),
            ),
            Some(thread_level) => match focus_why(category_level, thread_level) {
                None => Err(
                    Failure::Backend(
                        "category focus query returned an excluded thread in "@
                            + row.category@.id,
                    ),
                ),
                Some(reason) => Ok(
                    CategoryFocusItemRow {
                        thread: row.thread@,
                        category: row.category@,
                        category_level,
                        thread_level,
                        reason,
                    },
                ),
            },
        },
    }
}

/// The item of a row of the focus page.
pub fn decode_focus_row(row: StoredFocusRow) -> (r: Result<CategoryFocusItem, StoreError>)
    ensures
        single(r) == focus_row_item(row),
{
    let category_level = match focus_level_from(
        row.category.id.as_str(),
        row.category_level.as_str(),
    ) {
        Ok(level) => level,
        Err(e) => return Err(e),
    };
    let thread_level = match ThreadFollowLevel::parse(row.thread_level.as_str()) {
        Some(level) => level,
        None => return Err(
            StoreError::Backend(
                "unknown thread follow level in category focus: ".to_owned().concat(
                    row.thread_level.as_str(),
                ),
            ),
        ),
    };
    match category_focus_reason(category_level, thread_level) {
        None => Err(
            StoreError::Backend(
                "category focus query returned an excluded thread in ".to_owned().concat(
                    row.category.id.as_str(),
                ),
            ),
        ),
        Some(reason) => Ok(
            CategoryFocusItem {
                thread: row.thread,
                category: row.category,
                category_level,
                thread_level,
                reason,
            },
        ),
    }
}

// ---------------------------------------------------------------------------
// The catch-up desk.
// ---------------------------------------------------------------------------

/// The first unread post of a row; every column but the quote is there when the post is.
pub struct StoredUnread {
    pub id: String,
    pub thread_id: Option<String>,
    pub body_md: Option<String>,
    pub quoted_post_id: Option<String>,
    pub author_sub: Option<String>,
    pub author_email: Option<String>,
    pub created_at: Option<i64>,
}

/// The unread post of a row.
pub open spec fn unread_row_post(row: StoredUnread) -> Result<PostRow, Failure> {
    if row.thread_id is None {
        Err(Failure::Backend("catch-up unread thread is missing"@))
    } else if row.body_md is None {
        Err(Failure::Backend("catch-up unread body is missing"@))
    } else if row.author_sub is None {
        Err(Failure::Backend("catch-up unread author is missing"@))
    } else if row.author_email is None {
        Err(Failure::Backend("catch-up unread author email is missing"@))
    } else if row.created_at is None {
        Err(Failure::Backend("catch-up unread time is missing"@))
    } else {
        Ok(
            PostRow {
                id: row.id@,
                thread_id: row.thread_id->0@,
                body_md: row.body_md->0@,
                quoted_post_id: match row.quoted_post_id {
                    Some(id) => id@,
                    None => Seq::empty(),
                },
                author_sub: row.author_sub->0@,
                author_email: row.author_email->0@,
                created_at: row.created_at->0,
            },
        )
    }
}

fn missing(m: &str) -> (e: StoreError)
    ensures
        e@ == Failure::Backend(m@),
{
    StoreError::Backend(m.to_owned())
}

/// The unread post of a row.
pub fn decode_unread(row: StoredUnread) -> (r: Result<Post, StoreError>)
    ensures
        single(r) == unread_row_post(row),
{
    let thread_id = match row.thread_id {
        Some(t) => t,
        None => return Err(missing("catch-up unread thread is missing")),
    };
    let body_md = match row.body_md {
        Some(t) => t,
        None => return Err(missing("catch-up unread body is missing")),
    };
    let author_sub = match row.author_sub {
        Some(t) => t,
        None => return Err(missing("catch-up unread author is missing")),
    };
    let author_email = match row.author_email {
        Some(t) => t,
        None => return Err(missing("catch-up unread author email is missing")),
    };
    let created_at: i64 = match row.created_at {
        Some(t) => t,
        None => return Err(missing("catch-up unread time is missing")),
    };
    let quoted_post_id = match row.quoted_post_id {
        Some(t) => t,
        None => String::new(),
    };
    assert(row.quoted_post_id is None ==> quoted_post_id@ =~= Seq::empty());
    Ok(
        Post {
            id: row.id,
            thread_id,
            body_md,
            quoted_post_id,
            author_sub,
            author_email,
            created_at,
        },
    )
}

/// A row of the catch-up desk as it is stored.
pub struct StoredCatchUpRow {
    pub thread: Thread,
    pub category_name: String,
    pub category_format: String,
    pub follow_level: String,
    pub authored: bool,
    pub bookmarked: bool,
    pub participated: bool,
    pub reading_started: bool,
    pub unread_count: i64,
    pub unread: Option<StoredUnread>,
    pub solved: bool,
    pub activity_at: i64,
    pub post_count: i64,
}

/// The item of a row of the catch-up desk in a view.
pub open spec fn catch_up_row_item(view: CatchUpView, row: StoredCatchUpRow) -> Result<
    CatchUpItemRow,
    Failure,
> {
    let id = row.thread@.id;
    match ThreadFollowLevel::named(row.follow_level@) {
        None => Err(unknown("unknown catch-up follow level for "@, id, row.follow_level@)),
        Some(follow_level) => match catch_up_why(
            view,
            follow_level,
            row.authored,
            row.bookmarked,
            row.participated,
            row.reading_started,
        ) {
            None => Err(
                Failure::Backend("catch-up query returned an unexplained thread: "@ + id),
            ),
            Some(reason) => match row.unread {
                Some(unread) => match unread_row_post(unread) {
                    Err(e) => Err(e),
                    Ok(post) => catch_up_row_shown(row, follow_level, reason, Some(post)),
                },
                None => catch_up_row_shown(row, follow_level, reason, None),
            },
        },
    }
}

/// The item of a row whose parts are known; a thread has unread posts exactly when it has a first
/// one.
pub open spec fn catch_up_row_shown(
    row: StoredCatchUpRow,
    follow_level: ThreadFollowLevel,
    reason: CatchUpReason,
    first_unread: Option<PostRow>,
) -> Result<CatchUpItemRow, Failure> {
    if (row.unread_count > 0) != (first_unread is Some) {
        Err(
            Failure::Backend(
                "catch-up unread projection is inconsistent for "@ + row.thread@.id,
            ),
        )
    } else {
        Ok(
            CatchUpItemRow {
                thread: row.thread@,
                category_name: row.category_name@,
                reason,
                follow_level,
                unread_count: row.unread_count,
                first_unread,
                question_state: if !(stored_format(row.category_format@) is Question) {
                    None
                } else if row.solved {
                    Some(CatchUpQuestionState::Solved)
                } else {
                    Some(CatchUpQuestionState::Waiting)
                },
                activity_at: row.activity_at,
                reply_count: replies_of(row.post_count as int) as i64,
            },
        )
    }
}

/// The item of a row of the catch-up desk in a view.
pub fn decode_catch_up_row(view: CatchUpView, row: StoredCatchUpRow) -> (r: Result<
    CatchUpItem,
    StoreError,
>)
    ensures
        single(r) == catch_up_row_item(view, row),
{
    let follow_level = match ThreadFollowLevel::parse(row.follow_level.as_str()) {
        Some(level) => level,
        None => return Err(
            unknown_name(
                "unknown catch-up follow level for ",
                row.thread.id.as_str(),
                row.follow_level.as_str(),
            ),
        ),
    };
    let reason = match catch_up_reason(
        view,
        follow_level,
        row.authored,
        row.bookmarked,
        row.participated,
        row.reading_started,
    ) {
        Some(reason) => reason,
        None => return Err(
            StoreError::Backend(
                "catch-up query returned an unexplained thread: ".to_owned().concat(
                    row.thread.id.as_str(),
                ),
            ),
        ),
    };
    let first_unread: Option<Post> = match row.unread {
        Some(unread) => match decode_unread(unread) {
            Ok(post) => Some(post),
            Err(e) => return Err(e),
        },
        None => None,
    };
    if (row.unread_count > 0) != first_unread.is_some() {
        return Err(
            StoreError::Backend(
                "catch-up unread projection is inconsistent for ".to_owned().concat(
                    row.thread.id.as_str(),
                ),
            ),
        );
    }
    let question_state = if !format_from(row.category_format.as_str()).is_question() {
        None
    } else if row.solved {
        Some(CatchUpQuestionState::Solved)
    } else {
        Some(CatchUpQuestionState::Waiting)
    };
    Ok(
        CatchUpItem {
            thread: row.thread,
            category_name: row.category_name,
            reason,
            follow_level,
            unread_count: row.unread_count,
            first_unread,
            question_state,
            activity_at: row.activity_at,
            reply_count: reply_count_of(row.post_count),
        },
    )
}

/// The bound and the snapshot of a catch-up page: the snapshot cannot lie behind the clock.
pub fn check_snapshot(snapshot_generation: i64, current: i64) -> (r: Result<(), StoreError>)
    ensures
        plain(r) == if snapshot_generation > current {
            Err(Failure::InvalidOperation("catch-up snapshot generation is in the future"@))
        } else {
            Ok(())
        },
{
    if snapshot_generation > current {
        return Err(invalid("catch-up snapshot generation is in the future"));
    }
    Ok(())
}

// ---------------------------------------------------------------------------
// The activity stream.
// ---------------------------------------------------------------------------

/// The kind of an event with a stored name.
pub fn activity_kind_from(name: &str) -> (r: Result<ActivityKind, StoreError>)
    ensures
        plain(r) == match ActivityKind::named(name@) {
            Some(kind) => Ok(kind),
            None => Err(Failure::Backend("unknown activity kind: "@ + name@)),
        },
{
    match ActivityKind::parse(name) {
        Some(kind) => Ok(kind),
        None => Err(StoreError::Backend("unknown activity kind: ".to_owned().concat(name))),
    }
}

/// The reason of a delivery with a stored name.
pub fn activity_reason_from(name: &str) -> (r: Result<ActivityReason, StoreError>)
    ensures
        plain(r) == match ActivityReason::named(name@) {
            Some(reason) => Ok(reason),
            None => Err(Failure::Backend("unknown activity reason: "@ + name@)),
        },
{
    match ActivityReason::parse(name) {
        Some(reason) => Ok(reason),
        None => Err(StoreError::Backend("unknown activity reason: ".to_owned().concat(name))),
    }
}

} // verus!
