//! Forum storage.

use vstd::prelude::*;

pub mod activity;
pub mod answers;
pub mod bookmarks;
pub mod catch_up;
pub mod categories;
pub mod editing;
pub mod focus;
pub mod follow;
pub mod memory;
pub mod posting;
pub mod reactions;
pub mod rules;
pub mod tables;
pub mod threads;
pub mod types;

pub use crate::store::memory::InMemoryStore;
pub use crate::store::threads::Heat;
pub use crate::store::types::{
    AcceptedAnswerAction, AcceptedAnswerMutation, ActivityCursor, ActivityFilter, ActivityMutation,
    BookmarkCas, BookmarkCursor, BookmarkReminderUpdate, BookmarkState, CatchUpCursor, CatchUpItem,
    CatchUpQuestionState, CatchUpReason, CatchUpView, CategoryFocusItem, CategoryFocusReason,
    CategoryFocusRuleItem, MAX_ACTIVITY_BATCH, MAX_BOOKMARKS_PER_USER, MAX_BOOKMARK_NOTE_CHARS,
    MAX_BOOKMARK_PAGE, MAX_BOOKMARK_POST_BATCH, MAX_CATCH_UP_PAGE, MAX_CATEGORY_FOCUS_PAGE,
    MAX_CATEGORY_FOCUS_RULES, MAX_FOR_YOU_CANDIDATES, MAX_KLAXON_RECIPIENTS_PER_REPLY,
    MAX_MENTIONS_PER_POST, MAX_REMINDER_HORIZON_SECS, MAX_THREAD_FOLLOWERS, MAX_THREAD_READ_BATCH,
    MAX_THREAD_READING_STATE_BATCH, ReadingEntry, ReplyAnchor, SignalsEntry, StoreError,
    ThreadPersonalSignals, ThreadSort, ThreadStatusFilter,
};

verus! {

} // verus!
