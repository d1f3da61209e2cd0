//! The in-memory forum store and its mathematical model.

use vstd::prelude::*;

use crate::model::{
    ActivityEvent, ActivityEventRow, BannedAuthor, BannedAuthorRow, Bookmark, BookmarkRow,
    Category, CategoryRow, Mention, MentionRow, Post, PostRow, Thread, ThreadRow,
};
use crate::rows::views;
use crate::store::types::{
    ActivityReceipt, ActivityReceiptRow, CatchUpPostPoint, CatchUpPostPointRow, CategoryFocusRule,
    CategoryFocusRuleRow, IdentityAlias, IdentityAliasRow, OriginalPost, OriginalPostRow, Reaction,
    ReactionRow, ReadReceipt, ReadReceiptRow, StoredActivityDelivery, StoredActivityDeliveryRow,
    ThreadSubscription, ThreadSubscriptionRow,
};

verus! {

/// The forum, held in memory.
pub struct InMemoryStore {
    pub(crate) categories: Vec<Category>,
    pub(crate) threads: Vec<Thread>,
    pub(crate) posts: Vec<Post>,
    /// Which post each thread was opened with. Timestamps have second granularity, so this is
    /// never inferred from an order.
    pub(crate) original_posts: Vec<OriginalPost>,
    pub(crate) mentions: Vec<Mention>,
    pub(crate) identity_aliases: Vec<IdentityAlias>,
    pub(crate) subscriptions: Vec<ThreadSubscription>,
    pub(crate) activity_events: Vec<ActivityEvent>,
    pub(crate) activity_deliveries: Vec<StoredActivityDelivery>,
    pub(crate) activity_receipts: Vec<ActivityReceipt>,
    /// The commit-ordered clock of posts and read receipts.
    pub(crate) generation: i64,
    pub(crate) post_points: Vec<CatchUpPostPoint>,
    pub(crate) read_receipts: Vec<ReadReceipt>,
    pub(crate) category_focus_rules: Vec<CategoryFocusRule>,
    pub(crate) bookmarks: Vec<Bookmark>,
    pub(crate) banned: Vec<BannedAuthor>,
    pub(crate) reactions: Vec<Reaction>,
}

/// The mathematical model of the store: its tables as sequences of rows.
#[verifier::ext_equal]
pub struct Forum {
    pub categories: Seq<CategoryRow>,
    pub threads: Seq<ThreadRow>,
    pub posts: Seq<PostRow>,
    pub original_posts: Seq<OriginalPostRow>,
    pub mentions: Seq<MentionRow>,
    pub identity_aliases: Seq<IdentityAliasRow>,
    pub subscriptions: Seq<ThreadSubscriptionRow>,
    pub activity_events: Seq<ActivityEventRow>,
    pub activity_deliveries: Seq<StoredActivityDeliveryRow>,
    pub activity_receipts: Seq<ActivityReceiptRow>,
    pub generation: i64,
    pub post_points: Seq<CatchUpPostPointRow>,
    pub read_receipts: Seq<ReadReceiptRow>,
    pub category_focus_rules: Seq<CategoryFocusRuleRow>,
    pub bookmarks: Seq<BookmarkRow>,
    pub banned: Seq<BannedAuthorRow>,
    pub reactions: Seq<ReactionRow>,
}

/// The forum with nothing in it.
pub open spec fn empty_forum() -> Forum {
    Forum {
        categories: Seq::empty(),
        threads: Seq::empty(),
        posts: Seq::empty(),
        original_posts: Seq::empty(),
        mentions: Seq::empty(),
        identity_aliases: Seq::empty(),
        subscriptions: Seq::empty(),
        activity_events: Seq::empty(),
        activity_deliveries: Seq::empty(),
        activity_receipts: Seq::empty(),
        generation: 0,
        post_points: Seq::empty(),
        read_receipts: Seq::empty(),
        category_focus_rules: Seq::empty(),
        bookmarks: Seq::empty(),
        banned: Seq::empty(),
        reactions: Seq::empty(),
    }
}

impl View for InMemoryStore {
    type V = Forum;

    open(crate) spec fn view(&self) -> Forum {
        Forum {
            categories: views(self.categories@),
            threads: views(self.threads@),
            posts: views(self.posts@),
            original_posts: views(self.original_posts@),
            mentions: views(self.mentions@),
            identity_aliases: views(self.identity_aliases@),
            subscriptions: views(self.subscriptions@),
            activity_events: views(self.activity_events@),
            activity_deliveries: views(self.activity_deliveries@),
            activity_receipts: views(self.activity_receipts@),
            generation: self.generation,
            post_points: views(self.post_points@),
            read_receipts: views(self.read_receipts@),
            category_focus_rules: views(self.category_focus_rules@),
            bookmarks: views(self.bookmarks@),
            banned: views(self.banned@),
            reactions: views(self.reactions@),
        }
    }
}

impl InMemoryStore {
    /// A store with nothing in it.
    pub fn new() -> (store: Self)
        ensures
            store@ == empty_forum(),
    {
        let store = InMemoryStore {
            categories: Vec::new(),
            threads: Vec::new(),
            posts: Vec::new(),
            original_posts: Vec::new(),
            mentions: Vec::new(),
            identity_aliases: Vec::new(),
            subscriptions: Vec::new(),
            activity_events: Vec::new(),
            activity_deliveries: Vec::new(),
            activity_receipts: Vec::new(),
            generation: 0,
            post_points: Vec::new(),
            read_receipts: Vec::new(),
            category_focus_rules: Vec::new(),
            bookmarks: Vec::new(),
            banned: Vec::new(),
            reactions: Vec::new(),
        };
        assert(store@ =~~= empty_forum());
        store
    }
}

impl Default for InMemoryStore {
    fn default() -> (store: Self)
        ensures
            store@ == empty_forum(),
    {
        InMemoryStore::new()
    }
}

} // verus!
