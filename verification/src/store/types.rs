//! The store's own vocabulary: errors, cursors, filters, results, bounds, and table rows.

use vstd::prelude::*;
use vstd::string::StringExecFns;

use crate::model::{
    ActivityDelivery, ActivityDeliveryRow, ActivityReason, Category, CategoryFocusLevel,
    CategoryRow, Post, PostRow, Thread, ThreadFollowLevel, ThreadReadingState,
    ThreadReadingStateRow, ThreadRow,
};
use crate::rows::{Record, duplicate_opt, duplicate_rows, opt, views};

verus! {

/// Storage failure surfaced to the caller.
#[derive(Debug)]
pub enum StoreError {
    /// The storage backend failed.
    Backend(String),
    /// The request breaks a rule of the store.
    InvalidOperation(String),
    /// A record the request names does not exist.
    NotFound(String),
    /// The request lost against another one.
    Conflict(String),
}

/// The mathematical view of a [`StoreError`].
pub enum Failure {
    Backend(Seq<char>),
    InvalidOperation(Seq<char>),
    NotFound(Seq<char>),
    Conflict(Seq<char>),
}

impl View for StoreError {
    type V = Failure;

    open spec fn view(&self) -> Failure {
        match self {
            StoreError::Backend(m) => Failure::Backend(m@),
            StoreError::InvalidOperation(m) => Failure::InvalidOperation(m@),
            StoreError::NotFound(m) => Failure::NotFound(m@),
            StoreError::Conflict(m) => Failure::Conflict(m@),
        }
    }
}

impl Failure {
    /// The text shown for the failure.
    pub open spec fn text(self) -> Seq<char> {
        match self {
            Failure::Backend(m) => "store error: "@ + m,
            Failure::InvalidOperation(m) => "invalid store operation: "@ + m,
            Failure::NotFound(m) => "store record not found: "@ + m,
            Failure::Conflict(m) => "store conflict: "@ + m,
        }
    }
}

impl StoreError {
    /// The text shown for the failure.
    pub fn message(&self) -> (out: String)
        ensures
            out@ == self@.text(),
    {
        match self {
            StoreError::Backend(m) => "store error: ".to_owned().concat(m.as_str()),
            StoreError::InvalidOperation(m) => "invalid store operation: ".to_owned().concat(
                m.as_str(),
            ),
            StoreError::NotFound(m) => "store record not found: ".to_owned().concat(m.as_str()),
            StoreError::Conflict(m) => "store conflict: ".to_owned().concat(m.as_str()),
        }
    }
}

pub(crate) fn invalid(m: &str) -> (e: StoreError)
    ensures
        e@ == Failure::InvalidOperation(m@),
{
    StoreError::InvalidOperation(m.to_owned())
}

pub(crate) fn not_found(m: &str) -> (e: StoreError)
    ensures
        e@ == Failure::NotFound(m@),
{
    StoreError::NotFound(m.to_owned())
}

pub(crate) fn conflict(m: &str) -> (e: StoreError)
    ensures
        e@ == Failure::Conflict(m@),
{
    StoreError::Conflict(m.to_owned())
}

/// A result whose value is its own view.
pub open spec fn plain<T>(r: Result<T, StoreError>) -> Result<T, Failure> {
    match r {
        Ok(v) => Ok(v),
        Err(e) => Err(e@),
    }
}

/// A result that holds one record.
pub open spec fn single<T: View>(r: Result<T, StoreError>) -> Result<T::V, Failure> {
    match r {
        Ok(v) => Ok(v@),
        Err(e) => Err(e@),
    }
}

/// A result that may hold a record.
pub open spec fn maybe<T: View>(r: Result<Option<T>, StoreError>) -> Result<Option<T::V>, Failure> {
    match r {
        Ok(v) => Ok(opt(v)),
        Err(e) => Err(e@),
    }
}

/// A result that holds a list of records.
pub open spec fn listed<T: View>(r: Result<Vec<T>, StoreError>) -> Result<Seq<T::V>, Failure> {
    match r {
        Ok(v) => Ok(views(v@)),
        Err(e) => Err(e@),
    }
}

/// Which keyset page of a thread's replies to fetch, over the `(created_at, id)` cursor.
#[derive(Clone, Debug)]
pub enum ReplyAnchor {
    /// The oldest replies, ascending.
    First,
    /// Ascending from this reply on, itself included.
    From(i64, String),
    /// Ascending, strictly newer than the cursor.
    After(i64, String),
    /// Descending, strictly older than the cursor.
    Before(i64, String),
    /// The newest replies, descending.
    Latest,
    /// Descending from this reply on, itself included.
    Around(i64, String),
}

/// Sort mode for thread lists.
#[derive(Clone, Copy, Debug, PartialEq, Eq, Structural)]
pub enum ThreadSort {
    Latest,
    Top,
    Hot,
}

/// Question-state scope of a list. The answered and unanswered scopes leave discussion categories
/// out.
#[derive(Clone, Copy, Debug, PartialEq, Eq, Structural)]
pub enum ThreadStatusFilter {
    Any,
    Questions,
    Answered,
    Unanswered,
}

impl Default for ThreadStatusFilter {
    fn default() -> (r: Self)
        ensures
            r == ThreadStatusFilter::Any,
    {
        ThreadStatusFilter::Any
    }
}

/// Explicit accepted-answer mutation; accepting never toggles.
#[derive(Clone, Debug, PartialEq, Eq)]
pub enum AcceptedAnswerAction {
    Accept { post_id: String },
    Clear,
}

/// Signals that relate one viewer to one thread.
#[derive(Clone, Copy, Debug, PartialEq, Eq, Structural)]
pub struct ThreadPersonalSignals {
    pub follow_level: ThreadFollowLevel,
    pub authored: bool,
    pub participated: bool,
    pub bookmarked: bool,
    pub reading_started: bool,
    pub has_unread: bool,
}

impl Default for ThreadPersonalSignals {
    fn default() -> (r: Self)
        ensures
            r.follow_level is Unset && !r.authored && !r.participated && !r.bookmarked
                && !r.reading_started && !r.has_unread,
    {
        ThreadPersonalSignals {
            follow_level: ThreadFollowLevel::Unset,
            authored: false,
            participated: false,
            bookmarked: false,
            reading_started: false,
            has_unread: false,
        }
    }
}

/// One task-oriented view of the catch-up desk.
#[derive(Clone, Copy, Debug, PartialEq, Eq, Structural)]
pub enum CatchUpView {
    Updates,
    Following,
    Questions,
}

impl CatchUpView {
    /// The stable name of the value.
    pub open spec fn text(self) -> Seq<char> {
        match self {
            CatchUpView::Updates => "updates"@,
            CatchUpView::Following => "following"@,
            CatchUpView::Questions => "questions"@,
        }
    }

    /// The stable name of the value.
    pub fn as_str(self) -> (s: &'static str)
        ensures
            s@ == self.text(),
    {
        match self {
            CatchUpView::Updates => "updates",
            CatchUpView::Following => "following",
            CatchUpView::Questions => "questions",
        }
    }
}

impl Default for CatchUpView {
    fn default() -> (r: Self)
        ensures
            r == CatchUpView::Updates,
    {
        CatchUpView::Updates
    }
}
/// The strongest reason a thread belongs on the catch-up desk.
#[derive(Clone, Copy, Debug, PartialEq, Eq, Structural)]
pub enum CatchUpReason {
    Watch,
    Follow,
    Authored,
    Bookmarked,
    Participated,
    ContinueReading,
}

impl CatchUpReason {
    /// The stable name of the value.
    pub open spec fn text(self) -> Seq<char> {
        match self {
            CatchUpReason::Watch => "watch"@,
            CatchUpReason::Follow => "follow"@,
            CatchUpReason::Authored => "authored"@,
            CatchUpReason::Bookmarked => "bookmarked"@,
            CatchUpReason::Participated => "participated"@,
            CatchUpReason::ContinueReading => "reading"@,
        }
    }

    /// The stable name of the value.
    pub fn as_str(self) -> (s: &'static str)
        ensures
            s@ == self.text(),
    {
        match self {
            CatchUpReason::Watch => "watch",
            CatchUpReason::Follow => "follow",
            CatchUpReason::Authored => "authored",
            CatchUpReason::Bookmarked => "bookmarked",
            CatchUpReason::Participated => "participated",
            CatchUpReason::ContinueReading => "reading",
        }
    }
}
/// Whether a question has a live accepted reply.
#[derive(Clone, Copy, Debug, PartialEq, Eq, Structural)]
pub enum CatchUpQuestionState {
    Waiting,
    Solved,
}

impl CatchUpQuestionState {
    /// The stable name of the value.
    pub open spec fn text(self) -> Seq<char> {
        match self {
            CatchUpQuestionState::Waiting => "waiting"@,
            CatchUpQuestionState::Solved => "solved"@,
        }
    }

    /// The stable name of the value.
    pub fn as_str(self) -> (s: &'static str)
        ensures
            s@ == self.text(),
    {
        match self {
            CatchUpQuestionState::Waiting => "waiting",
            CatchUpQuestionState::Solved => "solved",
        }
    }
}
/// Why a thread appears on the focus page.
#[derive(Clone, Copy, Debug, PartialEq, Eq, Structural)]
pub enum CategoryFocusReason {
    CategoryPriority,
    CategoryFollow,
    ThreadWatchOverride,
    ThreadFollowOverride,
}

impl CategoryFocusReason {
    /// The stable name of the value.
    pub open spec fn text(self) -> Seq<char> {
        match self {
            CategoryFocusReason::CategoryPriority => "category_priority"@,
            CategoryFocusReason::CategoryFollow => "category_follow"@,
            CategoryFocusReason::ThreadWatchOverride => "thread_watch_override"@,
            CategoryFocusReason::ThreadFollowOverride => "thread_follow_override"@,
        }
    }

    /// The stable name of the value.
    pub fn as_str(self) -> (s: &'static str)
        ensures
            s@ == self.text(),
    {
        match self {
            CategoryFocusReason::CategoryPriority => "category_priority",
            CategoryFocusReason::CategoryFollow => "category_follow",
            CategoryFocusReason::ThreadWatchOverride => "thread_watch_override",
            CategoryFocusReason::ThreadFollowOverride => "thread_follow_override",
        }
    }
}

impl CategoryFocusReason {
    /// Position of the reason's group on the focus page.
    pub open spec fn bucket(self) -> int {
        match self {
            CategoryFocusReason::CategoryPriority => 0,
            CategoryFocusReason::CategoryFollow => 1,
            CategoryFocusReason::ThreadWatchOverride => 2,
            CategoryFocusReason::ThreadFollowOverride => 2,
        }
    }

    /// Position of the reason's group on the focus page.
    pub(crate) fn sort_bucket(self) -> (r: u8)
        ensures
            r == self.bucket(),
    {
        match self {
            CategoryFocusReason::CategoryPriority => 0,
            CategoryFocusReason::CategoryFollow => 1,
            CategoryFocusReason::ThreadWatchOverride | CategoryFocusReason::ThreadFollowOverride
                => 2,
        }
    }
}

/// Activity list filter over the best reason visible to the viewer.
#[derive(Clone, Copy, Debug, PartialEq, Eq, Structural)]
pub enum ActivityFilter {
    All,
    Reason(ActivityReason),
}

impl Default for ActivityFilter {
    fn default() -> (r: Self)
        ensures
            r == ActivityFilter::All,
    {
        ActivityFilter::All
    }
}

/// Personal bookmark list scope.
#[derive(Clone, Copy, Debug, PartialEq, Eq, Structural)]
pub enum BookmarkState {
    All,
    Due,
    Scheduled,
}

impl Default for BookmarkState {
    fn default() -> (r: Self)
        ensures
            r == BookmarkState::All,
    {
        BookmarkState::All
    }
}

/// Row identity plus edit version; both are required for every mutation, so a bookmark that was
/// deleted and recreated never matches an older one.
#[derive(Clone, Copy, Debug, PartialEq, Eq)]
pub struct BookmarkCas<'a> {
    pub bookmark_id: &'a str,
    pub version: i64,
}

/// Reminder edit. `Keep` leaves an already-due reminder alone.
#[derive(Clone, Copy, Debug, PartialEq, Eq, Structural)]
pub enum BookmarkReminderUpdate {
    Keep,
    Clear,
    SetTo(i64),
}

/// How many activities one command may mark read.
pub const MAX_ACTIVITY_BATCH: usize = 30;

/// How many posts one command may mark read: an original post, an accepted reply, one reply page,
/// and a small margin.
pub const MAX_THREAD_READ_BATCH: usize = 24;

/// How many threads one reading-state request may name.
pub const MAX_THREAD_READING_STATE_BATCH: usize = 200;

/// How many viewers may watch one thread.
pub const MAX_THREAD_FOLLOWERS: usize = 256;

/// How many threads one personal-signal request may name.
pub const MAX_FOR_YOU_CANDIDATES: usize = 200;

/// How many rows a catch-up page shows; one more may be requested as a sentinel.
pub const MAX_CATCH_UP_PAGE: i64 = 30;

/// How many category rules one viewer may keep.
pub const MAX_CATEGORY_FOCUS_RULES: usize = 64;

/// How many rows the focus page shows.
pub const MAX_CATEGORY_FOCUS_PAGE: i64 = 30;

/// How many distinct aliases one post may mention.
pub const MAX_MENTIONS_PER_POST: usize = 32;

/// Original author, quoted author, watchers, and mentions of one reply.
pub const MAX_KLAXON_RECIPIENTS_PER_REPLY: usize = MAX_THREAD_FOLLOWERS + MAX_MENTIONS_PER_POST + 2;

/// How many bookmarks one owner may keep.
pub const MAX_BOOKMARKS_PER_USER: usize = 1_000;

/// How many characters a bookmark note may hold.
pub const MAX_BOOKMARK_NOTE_CHARS: usize = 200;

/// How many rows a bookmark page shows.
pub const MAX_BOOKMARK_PAGE: i64 = 30;

/// How many posts one bookmark-state request may name.
pub const MAX_BOOKMARK_POST_BATCH: usize = 32;

/// How far ahead a reminder may lie.
pub const MAX_REMINDER_HORIZON_SECS: i64 = 10 * 366 * 24 * 60 * 60;

/// Result of an accepted-answer command.
#[derive(Debug)]
pub struct AcceptedAnswerMutation {
    pub thread: Thread,
    pub accepted_post: Option<Post>,
    pub changed: bool,
    /// Stable subjects that received the durable event, sorted, each once.
    pub delivery_subjects: Vec<String>,
}

/// The mathematical view of a [`AcceptedAnswerMutation`].
#[verifier::ext_equal]
pub struct AcceptedAnswerMutationRow {
    pub thread: ThreadRow,
    pub accepted_post: Option<PostRow>,
    pub changed: bool,
    pub delivery_subjects: Seq<Seq<char>>,
}

impl View for AcceptedAnswerMutation {
    type V = AcceptedAnswerMutationRow;

    open spec fn view(&self) -> AcceptedAnswerMutationRow {
        AcceptedAnswerMutationRow {
            thread: self.thread@,
            accepted_post: opt(self.accepted_post),
            changed: self.changed,
            delivery_subjects: views(self.delivery_subjects@),
        }
    }
}

impl Record for AcceptedAnswerMutation {
    fn duplicate(&self) -> (copy: Self) {
        AcceptedAnswerMutation {
            thread: self.thread.duplicate(),
            accepted_post: duplicate_opt(&self.accepted_post),
            changed: self.changed,
            delivery_subjects: duplicate_rows(&self.delivery_subjects),
        }
    }
}

impl Clone for AcceptedAnswerMutation {
    fn clone(&self) -> (copy: Self)
        ensures
            copy@ == self@,
    {
        self.duplicate()
    }
}

/// Result of a post, mention, and activity fan-out command.
#[derive(Debug)]
pub struct ActivityMutation {
    /// Stable subjects that received the durable event, sorted, each once.
    pub delivery_subjects: Vec<String>,
}

/// The mathematical view of a [`ActivityMutation`].
#[verifier::ext_equal]
pub struct ActivityMutationRow {
    pub delivery_subjects: Seq<Seq<char>>,
}

impl View for ActivityMutation {
    type V = ActivityMutationRow;

    open spec fn view(&self) -> ActivityMutationRow {
        ActivityMutationRow {
            delivery_subjects: views(self.delivery_subjects@),
        }
    }
}

impl Record for ActivityMutation {
    fn duplicate(&self) -> (copy: Self) {
        ActivityMutation {
            delivery_subjects: duplicate_rows(&self.delivery_subjects),
        }
    }
}

impl Clone for ActivityMutation {
    fn clone(&self) -> (copy: Self)
        ensures
            copy@ == self@,
    {
        self.duplicate()
    }
}

/// Descending `(activity_at, thread_id)` keyset bound to one view and one snapshot.
#[derive(Debug, PartialEq, Eq)]
pub struct CatchUpCursor {
    pub view: CatchUpView,
    pub as_of: i64,
    /// Commit-ordered post and read boundary.
    pub snapshot_generation: i64,
    pub activity_at: i64,
    pub thread_id: String,
}

/// The mathematical view of a [`CatchUpCursor`].
#[verifier::ext_equal]
pub struct CatchUpCursorRow {
    pub view: CatchUpView,
    pub as_of: i64,
    pub snapshot_generation: i64,
    pub activity_at: i64,
    pub thread_id: Seq<char>,
}

impl View for CatchUpCursor {
    type V = CatchUpCursorRow;

    open spec fn view(&self) -> CatchUpCursorRow {
        CatchUpCursorRow {
            view: self.view,
            as_of: self.as_of,
            snapshot_generation: self.snapshot_generation,
            activity_at: self.activity_at,
            thread_id: self.thread_id@,
        }
    }
}

impl Record for CatchUpCursor {
    fn duplicate(&self) -> (copy: Self) {
        CatchUpCursor {
            view: self.view,
            as_of: self.as_of,
            snapshot_generation: self.snapshot_generation,
            activity_at: self.activity_at,
            thread_id: self.thread_id.clone(),
        }
    }
}

impl Clone for CatchUpCursor {
    fn clone(&self) -> (copy: Self)
        ensures
            copy@ == self@,
    {
        self.duplicate()
    }
}

/// One complete catch-up row.
#[derive(Debug)]
pub struct CatchUpItem {
    pub thread: Thread,
    pub category_name: String,
    pub reason: CatchUpReason,
    pub follow_level: ThreadFollowLevel,
    pub unread_count: i64,
    pub first_unread: Option<Post>,
    pub question_state: Option<CatchUpQuestionState>,
    pub activity_at: i64,
    pub reply_count: i64,
}

/// The mathematical view of a [`CatchUpItem`].
#[verifier::ext_equal]
pub struct CatchUpItemRow {
    pub thread: ThreadRow,
    pub category_name: Seq<char>,
    pub reason: CatchUpReason,
    pub follow_level: ThreadFollowLevel,
    pub unread_count: i64,
    pub first_unread: Option<PostRow>,
    pub question_state: Option<CatchUpQuestionState>,
    pub activity_at: i64,
    pub reply_count: i64,
}

impl View for CatchUpItem {
    type V = CatchUpItemRow;

    open spec fn view(&self) -> CatchUpItemRow {
        CatchUpItemRow {
            thread: self.thread@,
            category_name: self.category_name@,
            reason: self.reason,
            follow_level: self.follow_level,
            unread_count: self.unread_count,
            first_unread: opt(self.first_unread),
            question_state: self.question_state,
            activity_at: self.activity_at,
            reply_count: self.reply_count,
        }
    }
}

impl Record for CatchUpItem {
    fn duplicate(&self) -> (copy: Self) {
        CatchUpItem {
            thread: self.thread.duplicate(),
            category_name: self.category_name.clone(),
            reason: self.reason,
            follow_level: self.follow_level,
            unread_count: self.unread_count,
            first_unread: duplicate_opt(&self.first_unread),
            question_state: self.question_state,
            activity_at: self.activity_at,
            reply_count: self.reply_count,
        }
    }
}

impl Clone for CatchUpItem {
    fn clone(&self) -> (copy: Self)
        ensures
            copy@ == self@,
    {
        self.duplicate()
    }
}

/// One explained row of the focus page.
#[derive(Debug)]
pub struct CategoryFocusItem {
    pub thread: Thread,
    pub category: Category,
    pub category_level: CategoryFocusLevel,
    pub thread_level: ThreadFollowLevel,
    pub reason: CategoryFocusReason,
}

/// The mathematical view of a [`CategoryFocusItem`].
#[verifier::ext_equal]
pub struct CategoryFocusItemRow {
    pub thread: ThreadRow,
    pub category: CategoryRow,
    pub category_level: CategoryFocusLevel,
    pub thread_level: ThreadFollowLevel,
    pub reason: CategoryFocusReason,
}

impl View for CategoryFocusItem {
    type V = CategoryFocusItemRow;

    open spec fn view(&self) -> CategoryFocusItemRow {
        CategoryFocusItemRow {
            thread: self.thread@,
            category: self.category@,
            category_level: self.category_level,
            thread_level: self.thread_level,
            reason: self.reason,
        }
    }
}

impl Record for CategoryFocusItem {
    fn duplicate(&self) -> (copy: Self) {
        CategoryFocusItem {
            thread: self.thread.duplicate(),
            category: self.category.duplicate(),
            category_level: self.category_level,
            thread_level: self.thread_level,
            reason: self.reason,
        }
    }
}

impl Clone for CategoryFocusItem {
    fn clone(&self) -> (copy: Self)
        ensures
            copy@ == self@,
    {
        self.duplicate()
    }
}

/// One category rule of a viewer.
#[derive(Debug)]
pub struct CategoryFocusRuleItem {
    pub category: Category,
    pub level: CategoryFocusLevel,
}

/// The mathematical view of a [`CategoryFocusRuleItem`].
#[verifier::ext_equal]
pub struct CategoryFocusRuleItemRow {
    pub category: CategoryRow,
    pub level: CategoryFocusLevel,
}

impl View for CategoryFocusRuleItem {
    type V = CategoryFocusRuleItemRow;

    open spec fn view(&self) -> CategoryFocusRuleItemRow {
        CategoryFocusRuleItemRow {
            category: self.category@,
            level: self.level,
        }
    }
}

impl Record for CategoryFocusRuleItem {
    fn duplicate(&self) -> (copy: Self) {
        CategoryFocusRuleItem {
            category: self.category.duplicate(),
            level: self.level,
        }
    }
}

impl Clone for CategoryFocusRuleItem {
    fn clone(&self) -> (copy: Self)
        ensures
            copy@ == self@,
    {
        self.duplicate()
    }
}

/// Keyset cursor of the personal activity stream.
#[derive(Debug, PartialEq, Eq)]
pub struct ActivityCursor {
    pub created_at: i64,
    pub id: String,
}

/// The mathematical view of a [`ActivityCursor`].
#[verifier::ext_equal]
pub struct ActivityCursorRow {
    pub created_at: i64,
    pub id: Seq<char>,
}

impl View for ActivityCursor {
    type V = ActivityCursorRow;

    open spec fn view(&self) -> ActivityCursorRow {
        ActivityCursorRow {
            created_at: self.created_at,
            id: self.id@,
        }
    }
}

impl Record for ActivityCursor {
    fn duplicate(&self) -> (copy: Self) {
        ActivityCursor {
            created_at: self.created_at,
            id: self.id.clone(),
        }
    }
}

impl Clone for ActivityCursor {
    fn clone(&self) -> (copy: Self)
        ensures
            copy@ == self@,
    {
        self.duplicate()
    }
}

/// Keyset cursor; `sort_at` is `created_at` for all bookmarks and `remind_at` otherwise.
#[derive(Debug, PartialEq, Eq)]
pub struct BookmarkCursor {
    pub sort_at: i64,
    pub post_id: String,
}

/// The mathematical view of a [`BookmarkCursor`].
#[verifier::ext_equal]
pub struct BookmarkCursorRow {
    pub sort_at: i64,
    pub post_id: Seq<char>,
}

impl View for BookmarkCursor {
    type V = BookmarkCursorRow;

    open spec fn view(&self) -> BookmarkCursorRow {
        BookmarkCursorRow {
            sort_at: self.sort_at,
            post_id: self.post_id@,
        }
    }
}

impl Record for BookmarkCursor {
    fn duplicate(&self) -> (copy: Self) {
        BookmarkCursor {
            sort_at: self.sort_at,
            post_id: self.post_id.clone(),
        }
    }
}

impl Clone for BookmarkCursor {
    fn clone(&self) -> (copy: Self)
        ensures
            copy@ == self@,
    {
        self.duplicate()
    }
}

/// The commit-ordered point at which a post entered the catch-up record.
#[derive(Debug)]
pub struct CatchUpPostPoint {
    pub post_id: String,
    pub thread_id: String,
    pub activity_at: i64,
    pub seq: i64,
}

/// The mathematical view of a [`CatchUpPostPoint`].
#[verifier::ext_equal]
pub struct CatchUpPostPointRow {
    pub post_id: Seq<char>,
    pub thread_id: Seq<char>,
    pub activity_at: i64,
    pub seq: i64,
}

impl View for CatchUpPostPoint {
    type V = CatchUpPostPointRow;

    open spec fn view(&self) -> CatchUpPostPointRow {
        CatchUpPostPointRow {
            post_id: self.post_id@,
            thread_id: self.thread_id@,
            activity_at: self.activity_at,
            seq: self.seq,
        }
    }
}

impl Record for CatchUpPostPoint {
    fn duplicate(&self) -> (copy: Self) {
        CatchUpPostPoint {
            post_id: self.post_id.clone(),
            thread_id: self.thread_id.clone(),
            activity_at: self.activity_at,
            seq: self.seq,
        }
    }
}

impl Clone for CatchUpPostPoint {
    fn clone(&self) -> (copy: Self)
        ensures
            copy@ == self@,
    {
        self.duplicate()
    }
}

/// That a viewer has read a post.
#[derive(Debug)]
pub struct ReadReceipt {
    pub viewer_sub: String,
    pub post_id: String,
    pub read_at: i64,
    pub read_seq: i64,
}

/// The mathematical view of a [`ReadReceipt`].
#[verifier::ext_equal]
pub struct ReadReceiptRow {
    pub viewer_sub: Seq<char>,
    pub post_id: Seq<char>,
    pub read_at: i64,
    pub read_seq: i64,
}

impl View for ReadReceipt {
    type V = ReadReceiptRow;

    open spec fn view(&self) -> ReadReceiptRow {
        ReadReceiptRow {
            viewer_sub: self.viewer_sub@,
            post_id: self.post_id@,
            read_at: self.read_at,
            read_seq: self.read_seq,
        }
    }
}

impl Record for ReadReceipt {
    fn duplicate(&self) -> (copy: Self) {
        ReadReceipt {
            viewer_sub: self.viewer_sub.clone(),
            post_id: self.post_id.clone(),
            read_at: self.read_at,
            read_seq: self.read_seq,
        }
    }
}

impl Clone for ReadReceipt {
    fn clone(&self) -> (copy: Self)
        ensures
            copy@ == self@,
    {
        self.duplicate()
    }
}

/// A viewer's stored rule for a category.
#[derive(Debug)]
pub struct CategoryFocusRule {
    pub viewer_sub: String,
    pub category_id: String,
    pub level: CategoryFocusLevel,
    pub created_at: i64,
    pub updated_at: i64,
}

/// The mathematical view of a [`CategoryFocusRule`].
#[verifier::ext_equal]
pub struct CategoryFocusRuleRow {
    pub viewer_sub: Seq<char>,
    pub category_id: Seq<char>,
    pub level: CategoryFocusLevel,
    pub created_at: i64,
    pub updated_at: i64,
}

impl View for CategoryFocusRule {
    type V = CategoryFocusRuleRow;

    open spec fn view(&self) -> CategoryFocusRuleRow {
        CategoryFocusRuleRow {
            viewer_sub: self.viewer_sub@,
            category_id: self.category_id@,
            level: self.level,
            created_at: self.created_at,
            updated_at: self.updated_at,
        }
    }
}

impl Record for CategoryFocusRule {
    fn duplicate(&self) -> (copy: Self) {
        CategoryFocusRule {
            viewer_sub: self.viewer_sub.clone(),
            category_id: self.category_id.clone(),
            level: self.level,
            created_at: self.created_at,
            updated_at: self.updated_at,
        }
    }
}

impl Clone for CategoryFocusRule {
    fn clone(&self) -> (copy: Self)
        ensures
            copy@ == self@,
    {
        self.duplicate()
    }
}

/// One stored reaction.
#[derive(Debug)]
pub struct Reaction {
    pub post_id: String,
    pub user_sub: String,
    pub kind: String,
    pub created_at: i64,
}

/// The mathematical view of a [`Reaction`].
#[verifier::ext_equal]
pub struct ReactionRow {
    pub post_id: Seq<char>,
    pub user_sub: Seq<char>,
    pub kind: Seq<char>,
    pub created_at: i64,
}

impl View for Reaction {
    type V = ReactionRow;

    open spec fn view(&self) -> ReactionRow {
        ReactionRow {
            post_id: self.post_id@,
            user_sub: self.user_sub@,
            kind: self.kind@,
            created_at: self.created_at,
        }
    }
}

impl Record for Reaction {
    fn duplicate(&self) -> (copy: Self) {
        Reaction {
            post_id: self.post_id.clone(),
            user_sub: self.user_sub.clone(),
            kind: self.kind.clone(),
            created_at: self.created_at,
        }
    }
}

impl Clone for Reaction {
    fn clone(&self) -> (copy: Self)
        ensures
            copy@ == self@,
    {
        self.duplicate()
    }
}

/// One explicit thread relationship.
#[derive(Debug)]
pub struct ThreadSubscription {
    pub thread_id: String,
    pub subscriber_sub: String,
    pub level: ThreadFollowLevel,
    pub created_at: i64,
}

/// The mathematical view of a [`ThreadSubscription`].
#[verifier::ext_equal]
pub struct ThreadSubscriptionRow {
    pub thread_id: Seq<char>,
    pub subscriber_sub: Seq<char>,
    pub level: ThreadFollowLevel,
    pub created_at: i64,
}

impl View for ThreadSubscription {
    type V = ThreadSubscriptionRow;

    open spec fn view(&self) -> ThreadSubscriptionRow {
        ThreadSubscriptionRow {
            thread_id: self.thread_id@,
            subscriber_sub: self.subscriber_sub@,
            level: self.level,
            created_at: self.created_at,
        }
    }
}

impl Record for ThreadSubscription {
    fn duplicate(&self) -> (copy: Self) {
        ThreadSubscription {
            thread_id: self.thread_id.clone(),
            subscriber_sub: self.subscriber_sub.clone(),
            level: self.level,
            created_at: self.created_at,
        }
    }
}

impl Clone for ThreadSubscription {
    fn clone(&self) -> (copy: Self)
        ensures
            copy@ == self@,
    {
        self.duplicate()
    }
}

/// One append-only observation that a subject uses an alias. Two subjects with one alias make it ambiguous for good.
#[derive(Debug)]
pub struct IdentityAlias {
    pub alias: String,
    pub subject: String,
    pub created_at: i64,
}

/// The mathematical view of a [`IdentityAlias`].
#[verifier::ext_equal]
pub struct IdentityAliasRow {
    pub alias: Seq<char>,
    pub subject: Seq<char>,
    pub created_at: i64,
}

impl View for IdentityAlias {
    type V = IdentityAliasRow;

    open spec fn view(&self) -> IdentityAliasRow {
        IdentityAliasRow {
            alias: self.alias@,
            subject: self.subject@,
            created_at: self.created_at,
        }
    }
}

impl Record for IdentityAlias {
    fn duplicate(&self) -> (copy: Self) {
        IdentityAlias {
            alias: self.alias.clone(),
            subject: self.subject.clone(),
            created_at: self.created_at,
        }
    }
}

impl Clone for IdentityAlias {
    fn clone(&self) -> (copy: Self)
        ensures
            copy@ == self@,
    {
        self.duplicate()
    }
}

/// A delivery of an activity event.
#[derive(Debug)]
pub struct StoredActivityDelivery {
    pub activity_id: String,
    pub delivery: ActivityDelivery,
}

/// The mathematical view of a [`StoredActivityDelivery`].
#[verifier::ext_equal]
pub struct StoredActivityDeliveryRow {
    pub activity_id: Seq<char>,
    pub delivery: ActivityDeliveryRow,
}

impl View for StoredActivityDelivery {
    type V = StoredActivityDeliveryRow;

    open spec fn view(&self) -> StoredActivityDeliveryRow {
        StoredActivityDeliveryRow {
            activity_id: self.activity_id@,
            delivery: self.delivery@,
        }
    }
}

impl Record for StoredActivityDelivery {
    fn duplicate(&self) -> (copy: Self) {
        StoredActivityDelivery {
            activity_id: self.activity_id.clone(),
            delivery: self.delivery.duplicate(),
        }
    }
}

impl Clone for StoredActivityDelivery {
    fn clone(&self) -> (copy: Self)
        ensures
            copy@ == self@,
    {
        self.duplicate()
    }
}

/// That a viewer has read an activity event.
#[derive(Debug)]
pub struct ActivityReceipt {
    pub activity_id: String,
    pub viewer_sub: String,
    pub read_at: i64,
}

/// The mathematical view of a [`ActivityReceipt`].
#[verifier::ext_equal]
pub struct ActivityReceiptRow {
    pub activity_id: Seq<char>,
    pub viewer_sub: Seq<char>,
    pub read_at: i64,
}

impl View for ActivityReceipt {
    type V = ActivityReceiptRow;

    open spec fn view(&self) -> ActivityReceiptRow {
        ActivityReceiptRow {
            activity_id: self.activity_id@,
            viewer_sub: self.viewer_sub@,
            read_at: self.read_at,
        }
    }
}

impl Record for ActivityReceipt {
    fn duplicate(&self) -> (copy: Self) {
        ActivityReceipt {
            activity_id: self.activity_id.clone(),
            viewer_sub: self.viewer_sub.clone(),
            read_at: self.read_at,
        }
    }
}

impl Clone for ActivityReceipt {
    fn clone(&self) -> (copy: Self)
        ensures
            copy@ == self@,
    {
        self.duplicate()
    }
}

/// Which post a thread was opened with.
#[derive(Debug)]
pub struct OriginalPost {
    pub thread_id: String,
    pub post_id: String,
}

/// The mathematical view of a [`OriginalPost`].
#[verifier::ext_equal]
pub struct OriginalPostRow {
    pub thread_id: Seq<char>,
    pub post_id: Seq<char>,
}

impl View for OriginalPost {
    type V = OriginalPostRow;

    open spec fn view(&self) -> OriginalPostRow {
        OriginalPostRow {
            thread_id: self.thread_id@,
            post_id: self.post_id@,
        }
    }
}

impl Record for OriginalPost {
    fn duplicate(&self) -> (copy: Self) {
        OriginalPost {
            thread_id: self.thread_id.clone(),
            post_id: self.post_id.clone(),
        }
    }
}

impl Clone for OriginalPost {
    fn clone(&self) -> (copy: Self)
        ensures
            copy@ == self@,
    {
        self.duplicate()
    }
}

/// The personal signals of one thread.
#[derive(Debug, PartialEq, Eq)]
pub struct SignalsEntry {
    pub thread_id: String,
    pub signals: ThreadPersonalSignals,
}

/// The mathematical view of a [`SignalsEntry`].
#[verifier::ext_equal]
pub struct SignalsEntryRow {
    pub thread_id: Seq<char>,
    pub signals: ThreadPersonalSignals,
}

impl View for SignalsEntry {
    type V = SignalsEntryRow;

    open spec fn view(&self) -> SignalsEntryRow {
        SignalsEntryRow {
            thread_id: self.thread_id@,
            signals: self.signals,
        }
    }
}

impl Record for SignalsEntry {
    fn duplicate(&self) -> (copy: Self) {
        SignalsEntry {
            thread_id: self.thread_id.clone(),
            signals: self.signals,
        }
    }
}

impl Clone for SignalsEntry {
    fn clone(&self) -> (copy: Self)
        ensures
            copy@ == self@,
    {
        self.duplicate()
    }
}

/// The reading state of one thread.
#[derive(Debug, PartialEq, Eq)]
pub struct ReadingEntry {
    pub thread_id: String,
    pub state: ThreadReadingState,
}

/// The mathematical view of a [`ReadingEntry`].
#[verifier::ext_equal]
pub struct ReadingEntryRow {
    pub thread_id: Seq<char>,
    pub state: ThreadReadingStateRow,
}

impl View for ReadingEntry {
    type V = ReadingEntryRow;

    open spec fn view(&self) -> ReadingEntryRow {
        ReadingEntryRow {
            thread_id: self.thread_id@,
            state: self.state@,
        }
    }
}

impl Record for ReadingEntry {
    fn duplicate(&self) -> (copy: Self) {
        ReadingEntry {
            thread_id: self.thread_id.clone(),
            state: self.state.duplicate(),
        }
    }
}

impl Clone for ReadingEntry {
    fn clone(&self) -> (copy: Self)
        ensures
            copy@ == self@,
    {
        self.duplicate()
    }
}

} // verus!
