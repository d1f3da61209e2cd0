//! The records the forum stores, and the mathematical view of each.

use vstd::prelude::*;

use crate::rows::{Record, duplicate_opt, opt};
use crate::text::same;

verus! {

/// Product behaviour of a category.
#[derive(Clone, Copy, Debug, PartialEq, Eq, Structural)]
pub enum CategoryFormat {
    Discussion,
    Question,
}

impl CategoryFormat {
    /// The stable name of the value.
    pub open spec fn text(self) -> Seq<char> {
        match self {
            CategoryFormat::Discussion => "discussion"@,
            CategoryFormat::Question => "question"@,
        }
    }

    /// The stable name of the value.
    pub fn as_str(self) -> (s: &'static str)
        ensures
            s@ == self.text(),
    {
        match self {
            CategoryFormat::Discussion => "discussion",
            CategoryFormat::Question => "question",
        }
    }

    /// The value with the given name, if there is one.
    pub open spec fn named(s: Seq<char>) -> Option<Self> {
        if s == "discussion"@ {
            Some(CategoryFormat::Discussion)
        } else if s == "question"@ {
            Some(CategoryFormat::Question)
        } else {
            None
        }
    }

    /// The value with the given name, if there is one.
    pub fn parse(s: &str) -> (r: Option<Self>)
        ensures
            r == Self::named(s@),
    {
        if same(s, "discussion") {
            Some(CategoryFormat::Discussion)
        } else if same(s, "question") {
            Some(CategoryFormat::Question)
        } else {
            None
        }
    }

    /// Every value is found by its stable name, and only by it.
    pub proof fn law_names(self, s: Seq<char>)
        ensures
            Self::named(s) == Some(self) <==> s == self.text(),
    {
        reveal_strlit("discussion");
        assert("discussion"@.len() == 10);
        reveal_strlit("question");
        assert("question"@.len() == 8);
        match self {
            CategoryFormat::Discussion => {},
            CategoryFormat::Question => {},
        }
    }
}

impl Default for CategoryFormat {
    fn default() -> (r: Self)
        ensures
            r == CategoryFormat::Discussion,
    {
        CategoryFormat::Discussion
    }
}

impl CategoryFormat {
    /// Whether threads of the category may have an accepted answer.
    pub fn is_question(self) -> (r: bool)
        ensures
            r == (self is Question),
    {
        match self {
            CategoryFormat::Question => true,
            CategoryFormat::Discussion => false,
        }
    }
}

/// One viewer's relationship to a thread.
#[derive(Clone, Copy, Debug, PartialEq, Eq, Structural)]
pub enum ThreadFollowLevel {
    Unset,
    Watch,
    Follow,
    Mute,
}

impl ThreadFollowLevel {
    /// The stable name of the value.
    pub open spec fn text(self) -> Seq<char> {
        match self {
            ThreadFollowLevel::Unset => "none"@,
            ThreadFollowLevel::Watch => "watch"@,
            ThreadFollowLevel::Follow => "follow"@,
            ThreadFollowLevel::Mute => "mute"@,
        }
    }

    /// The stable name of the value.
    pub fn as_str(self) -> (s: &'static str)
        ensures
            s@ == self.text(),
    {
        match self {
            ThreadFollowLevel::Unset => "none",
            ThreadFollowLevel::Watch => "watch",
            ThreadFollowLevel::Follow => "follow",
            ThreadFollowLevel::Mute => "mute",
        }
    }

    /// The value with the given name, if there is one.
    pub open spec fn named(s: Seq<char>) -> Option<Self> {
        if s == "none"@ {
            Some(ThreadFollowLevel::Unset)
        } else if s == "watch"@ {
            Some(ThreadFollowLevel::Watch)
        } else if s == "follow"@ {
            Some(ThreadFollowLevel::Follow)
        } else if s == "mute"@ {
            Some(ThreadFollowLevel::Mute)
        } else {
            None
        }
    }

    /// The value with the given name, if there is one.
    pub fn parse(s: &str) -> (r: Option<Self>)
        ensures
            r == Self::named(s@),
    {
        if same(s, "none") {
            Some(ThreadFollowLevel::Unset)
        } else if same(s, "watch") {
            Some(ThreadFollowLevel::Watch)
        } else if same(s, "follow") {
            Some(ThreadFollowLevel::Follow)
        } else if same(s, "mute") {
            Some(ThreadFollowLevel::Mute)
        } else {
            None
        }
    }

    /// Every value is found by its stable name, and only by it.
    pub proof fn law_names(self, s: Seq<char>)
        ensures
            Self::named(s) == Some(self) <==> s == self.text(),
    {
        reveal_strlit("none");
        assert("none"@.len() == 4);
        reveal_strlit("watch");
        assert("watch"@.len() == 5);
        reveal_strlit("follow");
        assert("follow"@.len() == 6);
        reveal_strlit("mute");
        assert("mute"@.len() == 4);
        assert("none"@[0] != "mute"@[0]);
        match self {
            ThreadFollowLevel::Unset => {},
            ThreadFollowLevel::Watch => {},
            ThreadFollowLevel::Follow => {},
            ThreadFollowLevel::Mute => {},
        }
    }
}

impl Default for ThreadFollowLevel {
    fn default() -> (r: Self)
        ensures
            r == ThreadFollowLevel::Unset,
    {
        ThreadFollowLevel::Unset
    }
}

impl ThreadFollowLevel {
    /// Whether the thread belongs in the viewer's own feeds.
    pub open spec fn in_feeds(self) -> bool {
        self is Watch || self is Follow
    }

    /// Whether the thread belongs in the viewer's own feeds.
    pub fn appears_in_personal_feeds(self) -> (r: bool)
        ensures
            r == self.in_feeds(),
    {
        match self {
            ThreadFollowLevel::Watch | ThreadFollowLevel::Follow => true,
            ThreadFollowLevel::Unset | ThreadFollowLevel::Mute => false,
        }
    }

    /// Whether every reply is delivered to the viewer.
    pub fn delivers_generic_activity(self) -> (r: bool)
        ensures
            r == (self is Watch),
    {
        match self {
            ThreadFollowLevel::Watch => true,
            ThreadFollowLevel::Unset | ThreadFollowLevel::Follow | ThreadFollowLevel::Mute => false,
        }
    }
}

/// One viewer's private intent for a category.
#[derive(Clone, Copy, Debug, PartialEq, Eq, Structural)]
pub enum CategoryFocusLevel {
    Unset,
    Priority,
    Follow,
    Mute,
}

impl CategoryFocusLevel {
    /// The stable name of the value.
    pub open spec fn text(self) -> Seq<char> {
        match self {
            CategoryFocusLevel::Unset => "none"@,
            CategoryFocusLevel::Priority => "priority"@,
            CategoryFocusLevel::Follow => "follow"@,
            CategoryFocusLevel::Mute => "mute"@,
        }
    }

    /// The stable name of the value.
    pub fn as_str(self) -> (s: &'static str)
        ensures
            s@ == self.text(),
    {
        match self {
            CategoryFocusLevel::Unset => "none",
            CategoryFocusLevel::Priority => "priority",
            CategoryFocusLevel::Follow => "follow",
            CategoryFocusLevel::Mute => "mute",
        }
    }

    /// The value with the given name, if there is one.
    pub open spec fn named(s: Seq<char>) -> Option<Self> {
        if s == "none"@ {
            Some(CategoryFocusLevel::Unset)
        } else if s == "priority"@ {
            Some(CategoryFocusLevel::Priority)
        } else if s == "follow"@ {
            Some(CategoryFocusLevel::Follow)
        } else if s == "mute"@ {
            Some(CategoryFocusLevel::Mute)
        } else {
            None
        }
    }

    /// The value with the given name, if there is one.
    pub fn parse(s: &str) -> (r: Option<Self>)
        ensures
            r == Self::named(s@),
    {
        if same(s, "none") {
            Some(CategoryFocusLevel::Unset)
        } else if same(s, "priority") {
            Some(CategoryFocusLevel::Priority)
        } else if same(s, "follow") {
            Some(CategoryFocusLevel::Follow)
        } else if same(s, "mute") {
            Some(CategoryFocusLevel::Mute)
        } else {
            None
        }
    }

    /// Every value is found by its stable name, and only by it.
    pub proof fn law_names(self, s: Seq<char>)
        ensures
            Self::named(s) == Some(self) <==> s == self.text(),
    {
        reveal_strlit("none");
        assert("none"@.len() == 4);
        reveal_strlit("priority");
        assert("priority"@.len() == 8);
        reveal_strlit("follow");
        assert("follow"@.len() == 6);
        reveal_strlit("mute");
        assert("mute"@.len() == 4);
        assert("none"@[0] != "mute"@[0]);
        match self {
            CategoryFocusLevel::Unset => {},
            CategoryFocusLevel::Priority => {},
            CategoryFocusLevel::Follow => {},
            CategoryFocusLevel::Mute => {},
        }
    }
}

impl Default for CategoryFocusLevel {
    fn default() -> (r: Self)
        ensures
            r == CategoryFocusLevel::Unset,
    {
        CategoryFocusLevel::Unset
    }
}
/// How the recipient of a delivery is addressed.
#[derive(Clone, Copy, Debug, PartialEq, Eq, Structural)]
pub enum ActivityRecipientKind {
    /// By the stable gateway subject.
    Subject,
}

impl ActivityRecipientKind {
    /// The stable name of the value.
    pub open spec fn text(self) -> Seq<char> {
        match self {
            ActivityRecipientKind::Subject => "subject"@,
        }
    }

    /// The stable name of the value.
    pub fn as_str(self) -> (s: &'static str)
        ensures
            s@ == self.text(),
    {
        match self {
            ActivityRecipientKind::Subject => "subject",
        }
    }
}
/// What an activity event reports.
#[derive(Clone, Copy, Debug, PartialEq, Eq, Structural)]
pub enum ActivityKind {
    PostCreated,
    AnswerAccepted,
}

impl ActivityKind {
    /// The stable name of the value.
    pub open spec fn text(self) -> Seq<char> {
        match self {
            ActivityKind::PostCreated => "post_created"@,
            ActivityKind::AnswerAccepted => "answer_accepted"@,
        }
    }

    /// The stable name of the value.
    pub fn as_str(self) -> (s: &'static str)
        ensures
            s@ == self.text(),
    {
        match self {
            ActivityKind::PostCreated => "post_created",
            ActivityKind::AnswerAccepted => "answer_accepted",
        }
    }

    /// The value with the given name, if there is one.
    pub open spec fn named(s: Seq<char>) -> Option<Self> {
        if s == "post_created"@ {
            Some(ActivityKind::PostCreated)
        } else if s == "answer_accepted"@ {
            Some(ActivityKind::AnswerAccepted)
        } else {
            None
        }
    }

    /// The value with the given name, if there is one.
    pub fn parse(s: &str) -> (r: Option<Self>)
        ensures
            r == Self::named(s@),
    {
        if same(s, "post_created") {
            Some(ActivityKind::PostCreated)
        } else if same(s, "answer_accepted") {
            Some(ActivityKind::AnswerAccepted)
        } else {
            None
        }
    }

    /// Every value is found by its stable name, and only by it.
    pub proof fn law_names(self, s: Seq<char>)
        ensures
            Self::named(s) == Some(self) <==> s == self.text(),
    {
        reveal_strlit("post_created");
        assert("post_created"@.len() == 12);
        reveal_strlit("answer_accepted");
        assert("answer_accepted"@.len() == 15);
        match self {
            ActivityKind::PostCreated => {},
            ActivityKind::AnswerAccepted => {},
        }
    }
}
/// Why an event was delivered.
#[derive(Clone, Copy, Debug, PartialEq, Eq, Structural)]
pub enum ActivityReason {
    Mention,
    Reply,
    Following,
    Answer,
}

impl ActivityReason {
    /// The stable name of the value.
    pub open spec fn text(self) -> Seq<char> {
        match self {
            ActivityReason::Mention => "mention"@,
            ActivityReason::Reply => "reply"@,
            ActivityReason::Following => "following"@,
            ActivityReason::Answer => "answer"@,
        }
    }

    /// The stable name of the value.
    pub fn as_str(self) -> (s: &'static str)
        ensures
            s@ == self.text(),
    {
        match self {
            ActivityReason::Mention => "mention",
            ActivityReason::Reply => "reply",
            ActivityReason::Following => "following",
            ActivityReason::Answer => "answer",
        }
    }

    /// The value with the given name, if there is one.
    pub open spec fn named(s: Seq<char>) -> Option<Self> {
        if s == "mention"@ {
            Some(ActivityReason::Mention)
        } else if s == "reply"@ {
            Some(ActivityReason::Reply)
        } else if s == "following"@ {
            Some(ActivityReason::Following)
        } else if s == "answer"@ {
            Some(ActivityReason::Answer)
        } else {
            None
        }
    }

    /// The value with the given name, if there is one.
    pub fn parse(s: &str) -> (r: Option<Self>)
        ensures
            r == Self::named(s@),
    {
        if same(s, "mention") {
            Some(ActivityReason::Mention)
        } else if same(s, "reply") {
            Some(ActivityReason::Reply)
        } else if same(s, "following") {
            Some(ActivityReason::Following)
        } else if same(s, "answer") {
            Some(ActivityReason::Answer)
        } else {
            None
        }
    }

    /// Every value is found by its stable name, and only by it.
    pub proof fn law_names(self, s: Seq<char>)
        ensures
            Self::named(s) == Some(self) <==> s == self.text(),
    {
        reveal_strlit("mention");
        assert("mention"@.len() == 7);
        reveal_strlit("reply");
        assert("reply"@.len() == 5);
        reveal_strlit("following");
        assert("following"@.len() == 9);
        reveal_strlit("answer");
        assert("answer"@.len() == 6);
        match self {
            ActivityReason::Mention => {},
            ActivityReason::Reply => {},
            ActivityReason::Following => {},
            ActivityReason::Answer => {},
        }
    }
}

impl ActivityReason {
    /// Rank among the reasons for one event; the lowest is shown.
    pub open spec fn rank(self) -> int {
        match self {
            ActivityReason::Mention => 0,
            ActivityReason::Reply => 1,
            ActivityReason::Answer => 2,
            ActivityReason::Following => 3,
        }
    }

    /// Rank among the reasons for one event; the lowest is shown.
    pub fn priority(self) -> (r: u8)
        ensures
            r == self.rank(),
    {
        match self {
            ActivityReason::Mention => 0,
            ActivityReason::Reply => 1,
            ActivityReason::Answer => 2,
            ActivityReason::Following => 3,
        }
    }
}

/// A forum category.
#[derive(Debug, PartialEq, Eq)]
pub struct Category {
    pub id: String,
    pub name: String,
    pub sort_order: i64,
    pub format: CategoryFormat,
}

/// The mathematical view of a [`Category`].
#[verifier::ext_equal]
pub struct CategoryRow {
    pub id: Seq<char>,
    pub name: Seq<char>,
    pub sort_order: i64,
    pub format: CategoryFormat,
}

impl View for Category {
    type V = CategoryRow;

    open spec fn view(&self) -> CategoryRow {
        CategoryRow {
            id: self.id@,
            name: self.name@,
            sort_order: self.sort_order,
            format: self.format,
        }
    }
}

impl Record for Category {
    fn duplicate(&self) -> (copy: Self) {
        Category {
            id: self.id.clone(),
            name: self.name.clone(),
            sort_order: self.sort_order,
            format: self.format,
        }
    }
}

impl Clone for Category {
    fn clone(&self) -> (copy: Self)
        ensures
            copy@ == self@,
    {
        self.duplicate()
    }
}

/// A discussion thread.
#[derive(Debug, PartialEq, Eq)]
pub struct Thread {
    pub id: String,
    pub category_id: String,
    pub title: String,
    pub author_sub: String,
    pub author_email: String,
    pub created_at: i64,
    /// When the thread was last replied to.
    pub last_at: i64,
    /// A locked thread accepts no new replies.
    pub locked: bool,
    /// A pinned thread sorts before the others.
    pub pinned: bool,
    /// The accepted reply; empty when there is none.
    pub accepted_post_id: String,
}

/// The mathematical view of a [`Thread`].
#[verifier::ext_equal]
pub struct ThreadRow {
    pub id: Seq<char>,
    pub category_id: Seq<char>,
    pub title: Seq<char>,
    pub author_sub: Seq<char>,
    pub author_email: Seq<char>,
    pub created_at: i64,
    pub last_at: i64,
    pub locked: bool,
    pub pinned: bool,
    pub accepted_post_id: Seq<char>,
}

impl View for Thread {
    type V = ThreadRow;

    open spec fn view(&self) -> ThreadRow {
        ThreadRow {
            id: self.id@,
            category_id: self.category_id@,
            title: self.title@,
            author_sub: self.author_sub@,
            author_email: self.author_email@,
            created_at: self.created_at,
            last_at: self.last_at,
            locked: self.locked,
            pinned: self.pinned,
            accepted_post_id: self.accepted_post_id@,
        }
    }
}

impl Record for Thread {
    fn duplicate(&self) -> (copy: Self) {
        Thread {
            id: self.id.clone(),
            category_id: self.category_id.clone(),
            title: self.title.clone(),
            author_sub: self.author_sub.clone(),
            author_email: self.author_email.clone(),
            created_at: self.created_at,
            last_at: self.last_at,
            locked: self.locked,
            pinned: self.pinned,
            accepted_post_id: self.accepted_post_id.clone(),
        }
    }
}

impl Clone for Thread {
    fn clone(&self) -> (copy: Self)
        ensures
            copy@ == self@,
    {
        self.duplicate()
    }
}

/// A post in a thread: its original post or a reply.
#[derive(Debug, PartialEq, Eq)]
pub struct Post {
    pub id: String,
    pub thread_id: String,
    pub body_md: String,
    /// The quoted post; empty when there is none.
    pub quoted_post_id: String,
    pub author_sub: String,
    pub author_email: String,
    pub created_at: i64,
}

/// The mathematical view of a [`Post`].
#[verifier::ext_equal]
pub struct PostRow {
    pub id: Seq<char>,
    pub thread_id: Seq<char>,
    pub body_md: Seq<char>,
    pub quoted_post_id: Seq<char>,
    pub author_sub: Seq<char>,
    pub author_email: Seq<char>,
    pub created_at: i64,
}

impl View for Post {
    type V = PostRow;

    open spec fn view(&self) -> PostRow {
        PostRow {
            id: self.id@,
            thread_id: self.thread_id@,
            body_md: self.body_md@,
            quoted_post_id: self.quoted_post_id@,
            author_sub: self.author_sub@,
            author_email: self.author_email@,
            created_at: self.created_at,
        }
    }
}

impl Record for Post {
    fn duplicate(&self) -> (copy: Self) {
        Post {
            id: self.id.clone(),
            thread_id: self.thread_id.clone(),
            body_md: self.body_md.clone(),
            quoted_post_id: self.quoted_post_id.clone(),
            author_sub: self.author_sub.clone(),
            author_email: self.author_email.clone(),
            created_at: self.created_at,
        }
    }
}

impl Clone for Post {
    fn clone(&self) -> (copy: Self)
        ensures
            copy@ == self@,
    {
        self.duplicate()
    }
}

/// A user name mentioned by a post.
#[derive(Debug, PartialEq, Eq)]
pub struct Mention {
    pub post_id: String,
    pub thread_id: String,
    pub mentioned_username: String,
    pub created_at: i64,
}

/// The mathematical view of a [`Mention`].
#[verifier::ext_equal]
pub struct MentionRow {
    pub post_id: Seq<char>,
    pub thread_id: Seq<char>,
    pub mentioned_username: Seq<char>,
    pub created_at: i64,
}

impl View for Mention {
    type V = MentionRow;

    open spec fn view(&self) -> MentionRow {
        MentionRow {
            post_id: self.post_id@,
            thread_id: self.thread_id@,
            mentioned_username: self.mentioned_username@,
            created_at: self.created_at,
        }
    }
}

impl Record for Mention {
    fn duplicate(&self) -> (copy: Self) {
        Mention {
            post_id: self.post_id.clone(),
            thread_id: self.thread_id.clone(),
            mentioned_username: self.mentioned_username.clone(),
            created_at: self.created_at,
        }
    }
}

impl Clone for Mention {
    fn clone(&self) -> (copy: Self)
        ensures
            copy@ == self@,
    {
        self.duplicate()
    }
}

/// One recipient of an activity event and why they receive it.
#[derive(Debug, PartialEq, Eq)]
pub struct ActivityDelivery {
    pub recipient_kind: ActivityRecipientKind,
    pub recipient_key: String,
    pub reason: ActivityReason,
}

/// The mathematical view of a [`ActivityDelivery`].
#[verifier::ext_equal]
pub struct ActivityDeliveryRow {
    pub recipient_kind: ActivityRecipientKind,
    pub recipient_key: Seq<char>,
    pub reason: ActivityReason,
}

impl View for ActivityDelivery {
    type V = ActivityDeliveryRow;

    open spec fn view(&self) -> ActivityDeliveryRow {
        ActivityDeliveryRow {
            recipient_kind: self.recipient_kind,
            recipient_key: self.recipient_key@,
            reason: self.reason,
        }
    }
}

impl Record for ActivityDelivery {
    fn duplicate(&self) -> (copy: Self) {
        ActivityDelivery {
            recipient_kind: self.recipient_kind,
            recipient_key: self.recipient_key.clone(),
            reason: self.reason,
        }
    }
}

impl Clone for ActivityDelivery {
    fn clone(&self) -> (copy: Self)
        ensures
            copy@ == self@,
    {
        self.duplicate()
    }
}

/// A durable activity event.
#[derive(Debug, PartialEq, Eq)]
pub struct ActivityEvent {
    pub id: String,
    pub kind: ActivityKind,
    pub thread_id: String,
    pub post_id: String,
    pub actor_sub: String,
    pub created_at: i64,
}

/// The mathematical view of a [`ActivityEvent`].
#[verifier::ext_equal]
pub struct ActivityEventRow {
    pub id: Seq<char>,
    pub kind: ActivityKind,
    pub thread_id: Seq<char>,
    pub post_id: Seq<char>,
    pub actor_sub: Seq<char>,
    pub created_at: i64,
}

impl View for ActivityEvent {
    type V = ActivityEventRow;

    open spec fn view(&self) -> ActivityEventRow {
        ActivityEventRow {
            id: self.id@,
            kind: self.kind,
            thread_id: self.thread_id@,
            post_id: self.post_id@,
            actor_sub: self.actor_sub@,
            created_at: self.created_at,
        }
    }
}

impl Record for ActivityEvent {
    fn duplicate(&self) -> (copy: Self) {
        ActivityEvent {
            id: self.id.clone(),
            kind: self.kind,
            thread_id: self.thread_id.clone(),
            post_id: self.post_id.clone(),
            actor_sub: self.actor_sub.clone(),
            created_at: self.created_at,
        }
    }
}

impl Clone for ActivityEvent {
    fn clone(&self) -> (copy: Self)
        ensures
            copy@ == self@,
    {
        self.duplicate()
    }
}

/// An activity event as one viewer sees it, joined to live content.
#[derive(Debug, PartialEq, Eq)]
pub struct ActivityItem {
    pub event: ActivityEvent,
    pub reason: ActivityReason,
    pub thread_title: String,
    pub post_body_md: String,
    pub post_created_at: i64,
    pub actor_email: String,
    pub read: bool,
}

/// The mathematical view of a [`ActivityItem`].
#[verifier::ext_equal]
pub struct ActivityItemRow {
    pub event: ActivityEventRow,
    pub reason: ActivityReason,
    pub thread_title: Seq<char>,
    pub post_body_md: Seq<char>,
    pub post_created_at: i64,
    pub actor_email: Seq<char>,
    pub read: bool,
}

impl View for ActivityItem {
    type V = ActivityItemRow;

    open spec fn view(&self) -> ActivityItemRow {
        ActivityItemRow {
            event: self.event@,
            reason: self.reason,
            thread_title: self.thread_title@,
            post_body_md: self.post_body_md@,
            post_created_at: self.post_created_at,
            actor_email: self.actor_email@,
            read: self.read,
        }
    }
}

impl Record for ActivityItem {
    fn duplicate(&self) -> (copy: Self) {
        ActivityItem {
            event: self.event.duplicate(),
            reason: self.reason,
            thread_title: self.thread_title.clone(),
            post_body_md: self.post_body_md.clone(),
            post_created_at: self.post_created_at,
            actor_email: self.actor_email.clone(),
            read: self.read,
        }
    }
}

impl Clone for ActivityItem {
    fn clone(&self) -> (copy: Self)
        ensures
            copy@ == self@,
    {
        self.duplicate()
    }
}

/// A blocked author.
#[derive(Debug, PartialEq, Eq)]
pub struct BannedAuthor {
    pub author_sub: String,
    pub reason: String,
    pub banned_by: String,
    pub created_at: i64,
}

/// The mathematical view of a [`BannedAuthor`].
#[verifier::ext_equal]
pub struct BannedAuthorRow {
    pub author_sub: Seq<char>,
    pub reason: Seq<char>,
    pub banned_by: Seq<char>,
    pub created_at: i64,
}

impl View for BannedAuthor {
    type V = BannedAuthorRow;

    open spec fn view(&self) -> BannedAuthorRow {
        BannedAuthorRow {
            author_sub: self.author_sub@,
            reason: self.reason@,
            banned_by: self.banned_by@,
            created_at: self.created_at,
        }
    }
}

impl Record for BannedAuthor {
    fn duplicate(&self) -> (copy: Self) {
        BannedAuthor {
            author_sub: self.author_sub.clone(),
            reason: self.reason.clone(),
            banned_by: self.banned_by.clone(),
            created_at: self.created_at,
        }
    }
}

impl Clone for BannedAuthor {
    fn clone(&self) -> (copy: Self)
        ensures
            copy@ == self@,
    {
        self.duplicate()
    }
}

/// A private bookmark on a post.
#[derive(Debug, PartialEq, Eq)]
pub struct Bookmark {
    /// Identity of this row; a recreated bookmark has another one.
    pub bookmark_id: String,
    pub owner_sub: String,
    pub post_id: String,
    pub note: String,
    pub remind_at: Option<i64>,
    pub created_at: i64,
    pub updated_at: i64,
    /// Raised by every edit.
    pub version: i64,
}

/// The mathematical view of a [`Bookmark`].
#[verifier::ext_equal]
pub struct BookmarkRow {
    pub bookmark_id: Seq<char>,
    pub owner_sub: Seq<char>,
    pub post_id: Seq<char>,
    pub note: Seq<char>,
    pub remind_at: Option<i64>,
    pub created_at: i64,
    pub updated_at: i64,
    pub version: i64,
}

impl View for Bookmark {
    type V = BookmarkRow;

    open spec fn view(&self) -> BookmarkRow {
        BookmarkRow {
            bookmark_id: self.bookmark_id@,
            owner_sub: self.owner_sub@,
            post_id: self.post_id@,
            note: self.note@,
            remind_at: self.remind_at,
            created_at: self.created_at,
            updated_at: self.updated_at,
            version: self.version,
        }
    }
}

impl Record for Bookmark {
    fn duplicate(&self) -> (copy: Self) {
        Bookmark {
            bookmark_id: self.bookmark_id.clone(),
            owner_sub: self.owner_sub.clone(),
            post_id: self.post_id.clone(),
            note: self.note.clone(),
            remind_at: self.remind_at,
            created_at: self.created_at,
            updated_at: self.updated_at,
            version: self.version,
        }
    }
}

impl Clone for Bookmark {
    fn clone(&self) -> (copy: Self)
        ensures
            copy@ == self@,
    {
        self.duplicate()
    }
}

/// A bookmark joined to its live post and thread.
#[derive(Debug, PartialEq, Eq)]
pub struct BookmarkItem {
    pub bookmark: Bookmark,
    pub thread_id: String,
    pub thread_title: String,
    pub post_author_email: String,
    pub post_body_md: String,
    pub post_created_at: i64,
}

/// The mathematical view of a [`BookmarkItem`].
#[verifier::ext_equal]
pub struct BookmarkItemRow {
    pub bookmark: BookmarkRow,
    pub thread_id: Seq<char>,
    pub thread_title: Seq<char>,
    pub post_author_email: Seq<char>,
    pub post_body_md: Seq<char>,
    pub post_created_at: i64,
}

impl View for BookmarkItem {
    type V = BookmarkItemRow;

    open spec fn view(&self) -> BookmarkItemRow {
        BookmarkItemRow {
            bookmark: self.bookmark@,
            thread_id: self.thread_id@,
            thread_title: self.thread_title@,
            post_author_email: self.post_author_email@,
            post_body_md: self.post_body_md@,
            post_created_at: self.post_created_at,
        }
    }
}

impl Record for BookmarkItem {
    fn duplicate(&self) -> (copy: Self) {
        BookmarkItem {
            bookmark: self.bookmark.duplicate(),
            thread_id: self.thread_id.clone(),
            thread_title: self.thread_title.clone(),
            post_author_email: self.post_author_email.clone(),
            post_body_md: self.post_body_md.clone(),
            post_created_at: self.post_created_at,
        }
    }
}

impl Clone for BookmarkItem {
    fn clone(&self) -> (copy: Self)
        ensures
            copy@ == self@,
    {
        self.duplicate()
    }
}

/// How often one kind of reaction was given to a post.
#[derive(Debug, PartialEq, Eq)]
pub struct ReactionCount {
    pub kind: String,
    pub count: i64,
    pub mine: bool,
}

/// The mathematical view of a [`ReactionCount`].
#[verifier::ext_equal]
pub struct ReactionCountRow {
    pub kind: Seq<char>,
    pub count: i64,
    pub mine: bool,
}

impl View for ReactionCount {
    type V = ReactionCountRow;

    open spec fn view(&self) -> ReactionCountRow {
        ReactionCountRow {
            kind: self.kind@,
            count: self.count,
            mine: self.mine,
        }
    }
}

impl Record for ReactionCount {
    fn duplicate(&self) -> (copy: Self) {
        ReactionCount {
            kind: self.kind.clone(),
            count: self.count,
            mine: self.mine,
        }
    }
}

impl Clone for ReactionCount {
    fn clone(&self) -> (copy: Self)
        ensures
            copy@ == self@,
    {
        self.duplicate()
    }
}

/// A thread together with the body of its original post.
#[derive(Debug, PartialEq, Eq)]
pub struct ThreadDigest {
    pub id: String,
    pub category_id: String,
    pub title: String,
    pub first_body_md: String,
}

/// The mathematical view of a [`ThreadDigest`].
#[verifier::ext_equal]
pub struct ThreadDigestRow {
    pub id: Seq<char>,
    pub category_id: Seq<char>,
    pub title: Seq<char>,
    pub first_body_md: Seq<char>,
}

impl View for ThreadDigest {
    type V = ThreadDigestRow;

    open spec fn view(&self) -> ThreadDigestRow {
        ThreadDigestRow {
            id: self.id@,
            category_id: self.category_id@,
            title: self.title@,
            first_body_md: self.first_body_md@,
        }
    }
}

impl Record for ThreadDigest {
    fn duplicate(&self) -> (copy: Self) {
        ThreadDigest {
            id: self.id.clone(),
            category_id: self.category_id.clone(),
            title: self.title.clone(),
            first_body_md: self.first_body_md.clone(),
        }
    }
}

impl Clone for ThreadDigest {
    fn clone(&self) -> (copy: Self)
        ensures
            copy@ == self@,
    {
        self.duplicate()
    }
}

/// How far one viewer has read a thread.
#[derive(Debug, PartialEq, Eq)]
pub struct ThreadReadingState {
    pub started: bool,
    pub unread_count: i64,
    pub first_unread: Option<Post>,
    pub last_contiguous_read: Option<Post>,
}

/// The mathematical view of a [`ThreadReadingState`].
#[verifier::ext_equal]
pub struct ThreadReadingStateRow {
    pub started: bool,
    pub unread_count: i64,
    pub first_unread: Option<PostRow>,
    pub last_contiguous_read: Option<PostRow>,
}

impl View for ThreadReadingState {
    type V = ThreadReadingStateRow;

    open spec fn view(&self) -> ThreadReadingStateRow {
        ThreadReadingStateRow {
            started: self.started,
            unread_count: self.unread_count,
            first_unread: opt(self.first_unread),
            last_contiguous_read: opt(self.last_contiguous_read),
        }
    }
}

impl Record for ThreadReadingState {
    fn duplicate(&self) -> (copy: Self) {
        ThreadReadingState {
            started: self.started,
            unread_count: self.unread_count,
            first_unread: duplicate_opt(&self.first_unread),
            last_contiguous_read: duplicate_opt(&self.last_contiguous_read),
        }
    }
}

impl Clone for ThreadReadingState {
    fn clone(&self) -> (copy: Self)
        ensures
            copy@ == self@,
    {
        self.duplicate()
    }
}

/// A thread found by a search.
#[derive(Debug, PartialEq, Eq)]
pub struct ThreadSearchHit {
    pub thread: Thread,
    pub first_body_md: String,
    pub accepted_body_md: String,
    pub matched_in_solution: bool,
    pub reply_count: i64,
}

/// The mathematical view of a [`ThreadSearchHit`].
#[verifier::ext_equal]
pub struct ThreadSearchHitRow {
    pub thread: ThreadRow,
    pub first_body_md: Seq<char>,
    pub accepted_body_md: Seq<char>,
    pub matched_in_solution: bool,
    pub reply_count: i64,
}

impl View for ThreadSearchHit {
    type V = ThreadSearchHitRow;

    open spec fn view(&self) -> ThreadSearchHitRow {
        ThreadSearchHitRow {
            thread: self.thread@,
            first_body_md: self.first_body_md@,
            accepted_body_md: self.accepted_body_md@,
            matched_in_solution: self.matched_in_solution,
            reply_count: self.reply_count,
        }
    }
}

impl Record for ThreadSearchHit {
    fn duplicate(&self) -> (copy: Self) {
        ThreadSearchHit {
            thread: self.thread.duplicate(),
            first_body_md: self.first_body_md.clone(),
            accepted_body_md: self.accepted_body_md.clone(),
            matched_in_solution: self.matched_in_solution,
            reply_count: self.reply_count,
        }
    }
}

impl Clone for ThreadSearchHit {
    fn clone(&self) -> (copy: Self)
        ensures
            copy@ == self@,
    {
        self.duplicate()
    }
}

} // verus!
