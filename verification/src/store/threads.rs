//! Reading threads and posts: lists, search, digests, and reply pages.

use vstd::prelude::*;

use crate::model::{
    Post, PostRow, Thread, ThreadDigest, ThreadDigestRow, ThreadRow, ThreadSearchHit,
    ThreadSearchHitRow,
};
use crate::rows::{
    Record, any_row, as_count, collect_rows, collected, count, count_rows, duplicate_rows,
    first_row, get_last_row, get_row, last_row, limit_rows, limited, map_rows, opt, select,
    some_row, sort_rows, sorted, to_count, views,
};
use crate::store::memory::{Forum, InMemoryStore};
use crate::store::tables::{
    category_format, display_order, displayed_before, find_post, find_thread, format_of,
    has_valid_question_solution, is_displayed_before, is_more_recent, is_solved, more_recent,
    original_id, original_of, post_in, post_is, public_row, public_thread, recency_order,
    status_admits, thread_in, thread_is, thread_matches_status, valid_accepted,
    valid_accepted_post,
};
use crate::store::types::{
    Failure, ReplyAnchor, StoreError, ThreadSort, ThreadStatusFilter, ThreadSubscription,
    ThreadSubscriptionRow, listed, maybe, plain,
};
use crate::text::{
    contains, contains_text, lowercase, lowercase_text, same, str_less, text_less, trim, trim_text,
};

verus! {

// ---------------------------------------------------------------------------
// Ranking.
// ---------------------------------------------------------------------------

/// How hot a thread with the given replies and creation time is; a larger heat ranks first. The
/// decay is a real-valued formula, so its outcome is handed in as an order-preserving key.
#[derive(Clone, Copy, Debug, PartialEq, Eq, Structural)]
pub struct Heat {
    pub reply_count: i64,
    pub created_at: i64,
    pub heat: u64,
}

impl View for Heat {
    type V = Heat;

    open spec fn view(&self) -> Heat {
        *self
    }
}

impl Record for Heat {
    fn duplicate(&self) -> (copy: Self) {
        *self
    }
}

/// The heat entry for the replies and creation time.
pub open spec fn heat_for(reply_count: i64, created_at: i64) -> spec_fn(Heat) -> bool {
    |h: Heat| h.reply_count == reply_count && h.created_at == created_at
}

/// The heat of a thread; a thread without an entry has none.
pub open spec fn heat_of(table: Seq<Heat>, reply_count: i64, created_at: i64) -> u64 {
    match first_row(table, heat_for(reply_count, created_at)) {
        Some(h) => h.heat,
        None => 0,
    }
}

/// A thread with what it is ranked by.
pub struct RankedThread {
    pub thread: Thread,
    pub reply_count: i64,
    pub heat: u64,
}

/// The mathematical view of a [`RankedThread`].
#[verifier::ext_equal]
pub struct RankedThreadRow {
    pub thread: ThreadRow,
    pub reply_count: i64,
    pub heat: u64,
}

impl View for RankedThread {
    type V = RankedThreadRow;

    open spec fn view(&self) -> RankedThreadRow {
        RankedThreadRow { thread: self.thread@, reply_count: self.reply_count, heat: self.heat }
    }
}

/// Whether a thread ranks before another. Pinned threads come first in every mode, and each mode
/// falls back to recent activity.
pub open spec fn ranked_before(sort: ThreadSort, a: RankedThreadRow, b: RankedThreadRow) -> bool {
    if a.thread.pinned != b.thread.pinned {
        a.thread.pinned
    } else if sort is Hot && a.heat != b.heat {
        a.heat > b.heat
    } else if !(sort is Latest) && a.reply_count != b.reply_count {
        a.reply_count > b.reply_count
    } else {
        more_recent(a.thread, b.thread)
    }
}

/// The order of a thread list.
pub open spec fn rank_order(sort: ThreadSort) -> spec_fn(RankedThreadRow, RankedThreadRow) -> bool {
    |a: RankedThreadRow, b: RankedThreadRow| !ranked_before(sort, b, a)
}

fn is_ranked_before(sort: ThreadSort, a: &RankedThread, b: &RankedThread) -> (r: bool)
    ensures
        r == ranked_before(sort, a@, b@),
{
    if a.thread.pinned != b.thread.pinned {
        return a.thread.pinned;
    }
    match sort {
        ThreadSort::Latest => is_more_recent(&a.thread, &b.thread),
        ThreadSort::Top => if a.reply_count != b.reply_count {
            a.reply_count > b.reply_count
        } else {
            is_more_recent(&a.thread, &b.thread)
        },
        ThreadSort::Hot => if a.heat != b.heat {
            a.heat > b.heat
        } else if a.reply_count != b.reply_count {
            a.reply_count > b.reply_count
        } else {
            is_more_recent(&a.thread, &b.thread)
        },
    }
}

/// Sort threads that carry their reply counts.
pub(crate) fn sort_thread_rows(rows: Vec<RankedThread>, sort: ThreadSort) -> (out: Vec<RankedThread>)
    ensures
        views(out@) == sorted(views(rows@), rank_order(sort)),
{
    let le = |a: &RankedThread, b: &RankedThread| -> (r: bool)
        ensures
            r == rank_order(sort)(a@, b@),
        { !is_ranked_before(sort, b, a) };
    sort_rows(rows, le, Ghost(rank_order(sort)))
}

fn heat_in(table: &Vec<Heat>, reply_count: i64, created_at: i64) -> (r: u64)
    ensures
        r == heat_of(views(table@), reply_count, created_at),
{
    let test = |h: &Heat| -> (b: bool)
        ensures
            b == heat_for(reply_count, created_at)(h@),
        { h.reply_count == reply_count && h.created_at == created_at };
    match get_row(table, test, Ghost(heat_for(reply_count, created_at))) {
        Some(h) => h.heat,
        None => 0,
    }
}

// ---------------------------------------------------------------------------
// Lists.
// ---------------------------------------------------------------------------

/// How many replies a thread has: its posts without the original one.
pub open spec fn replies_in(posts: Seq<PostRow>, thread_id: Seq<char>) -> i64 {
    let n = as_count(count_rows(posts, post_in(thread_id)));
    if n <= 1 {
        0
    } else {
        (n - 1) as i64
    }
}

/// The relationships by which a thread appears in a viewer's feeds.
pub open spec fn feeds(viewer_sub: Seq<char>, thread_id: Seq<char>) -> spec_fn(
    ThreadSubscriptionRow,
) -> bool {
    |s: ThreadSubscriptionRow|
        s.subscriber_sub == viewer_sub && s.thread_id == thread_id && s.level.in_feeds()
}

/// Whether a thread is a solved question.
pub open spec fn solved_in(f: Forum, t: ThreadRow) -> bool {
    is_solved(t, format_of(f.categories, t.category_id), f.original_posts, f.posts)
}

/// Whether a thread belongs to the requested category and question state.
pub open spec fn in_scope(
    f: Forum,
    category_id: Option<Seq<char>>,
    status: ThreadStatusFilter,
    t: ThreadRow,
) -> bool {
    &&& category_id is Some ==> t.category_id == category_id->0
    &&& status_admits(
        solved_in(f, t),
        format_of(f.categories, t.category_id) is Question,
        status,
    )
}

/// The threads of a list.
pub open spec fn list_admits(
    f: Forum,
    category_id: Option<Seq<char>>,
    subscribed_sub: Option<Seq<char>>,
    status: ThreadStatusFilter,
) -> spec_fn(ThreadRow) -> bool {
    |t: ThreadRow|
        in_scope(f, category_id, status, t) && (subscribed_sub is Some ==> some_row(
            f.subscriptions,
            feeds(subscribed_sub->0, t.id),
        ))
}

/// A thread as a list shows and ranks it.
pub open spec fn ranked_in(f: Forum, heat: Seq<Heat>) -> spec_fn(ThreadRow) -> RankedThreadRow {
    |t: ThreadRow|
        RankedThreadRow {
            thread: public_row(t, solved_in(f, t)),
            reply_count: replies_in(f.posts, t.id),
            heat: heat_of(heat, replies_in(f.posts, t.id), t.created_at),
        }
}

/// The thread of a ranked row.
pub open spec fn ranked_thread() -> spec_fn(RankedThreadRow) -> ThreadRow {
    |r: RankedThreadRow| r.thread
}

/// The thread list.
pub open spec fn thread_list(
    f: Forum,
    category_id: Option<Seq<char>>,
    sort: ThreadSort,
    subscribed_sub: Option<Seq<char>>,
    status: ThreadStatusFilter,
    limit: int,
    heat: Seq<Heat>,
) -> Seq<ThreadRow> {
    let rows = f.threads.filter(list_admits(f, category_id, subscribed_sub, status)).map_values(
        ranked_in(f, heat),
    );
    limited(sorted(rows, rank_order(sort)), limit).map_values(ranked_thread())
}

// ---------------------------------------------------------------------------
// Search.
// ---------------------------------------------------------------------------

/// The recorded original post of a thread, found among the thread's posts.
pub open spec fn opening_post(f: Forum, thread_id: Seq<char>) -> spec_fn(PostRow) -> bool {
    |p: PostRow| p.thread_id == thread_id && original_of(f.original_posts, thread_id) == Some(p.id)
}

/// The text a search sees as the body of a thread's original post.
pub open spec fn opening_body(f: Forum, thread_id: Seq<char>) -> Seq<char> {
    match last_row(f.posts, opening_post(f, thread_id)) {
        Some(p) => p.body_md,
        None => Seq::empty(),
    }
}

/// The text a search sees as a thread's solution; only a solved question has one.
pub open spec fn solution_body(f: Forum, t: ThreadRow) -> Seq<char> {
    if format_of(f.categories, t.category_id) is Question {
        match valid_accepted(t, f.original_posts, f.posts) {
            Some(p) => match last_row(f.posts, post_is(p.id)) {
                Some(q) => q.body_md,
                None => Seq::empty(),
            },
            None => Seq::empty(),
        }
    } else {
        Seq::empty()
    }
}

/// What a search finds in a thread: the needle must stand in the title, the original post, or the
/// solution, upper and lower case alike.
pub open spec fn search_hit(
    f: Forum,
    needle: Seq<char>,
    category_id: Option<Seq<char>>,
    status: ThreadStatusFilter,
) -> spec_fn(ThreadRow) -> Option<ThreadSearchHitRow> {
    |t: ThreadRow|
        if in_scope(f, category_id, status, t) && (contains_text(lowercase_text(t.title), needle)
            || contains_text(lowercase_text(opening_body(f, t.id)), needle) || contains_text(
            lowercase_text(solution_body(f, t)),
            needle,
        )) {
            Some(
                ThreadSearchHitRow {
                    thread: public_row(t, solved_in(f, t)),
                    first_body_md: opening_body(f, t.id),
                    accepted_body_md: solution_body(f, t),
                    matched_in_solution: contains_text(
                        lowercase_text(solution_body(f, t)),
                        needle,
                    ),
                    reply_count: replies_in(f.posts, t.id),
                },
            )
        } else {
            None
        }
}

/// The order of search hits.
pub open spec fn hit_order() -> spec_fn(ThreadSearchHitRow, ThreadSearchHitRow) -> bool {
    |a: ThreadSearchHitRow, b: ThreadSearchHitRow| !displayed_before(b.thread, a.thread)
}

/// The search hits; a blank query finds nothing.
pub open spec fn search_hits(
    f: Forum,
    query: Seq<char>,
    category_id: Option<Seq<char>>,
    status: ThreadStatusFilter,
    limit: int,
) -> Seq<ThreadSearchHitRow> {
    let needle = lowercase_text(trim_text(query));
    if needle.len() == 0 {
        Seq::empty()
    } else {
        limited(
            sorted(collected(f.threads, search_hit(f, needle, category_id, status)), hit_order()),
            limit,
        )
    }
}

// ---------------------------------------------------------------------------
// Posts.
// ---------------------------------------------------------------------------

/// The recorded original post of a thread.
pub open spec fn original_post(f: Forum, thread_id: Seq<char>) -> spec_fn(PostRow) -> bool {
    |p: PostRow| original_of(f.original_posts, thread_id) == Some(p.id)
}

/// A thread with the body of its original post.
pub open spec fn digest_of(f: Forum) -> spec_fn(ThreadRow) -> ThreadDigestRow {
    |t: ThreadRow|
        ThreadDigestRow {
            id: t.id,
            category_id: t.category_id,
            title: t.title,
            first_body_md: match first_row(f.posts, original_post(f, t.id)) {
                Some(p) => p.body_md,
                None => Seq::empty(),
            },
        }
}

/// Whether the cursor `(at, id)` lies before `(at2, id2)`.
pub open spec fn key_less(at: int, id: Seq<char>, at2: int, id2: Seq<char>) -> bool {
    at < at2 || (at == at2 && text_less(id, id2))
}

/// Whether a post stands before another in a thread: the original post first, then the oldest.
pub open spec fn post_before(op: Option<Seq<char>>, a: PostRow, b: PostRow) -> bool {
    let first_a = op == Some(a.id);
    let first_b = op == Some(b.id);
    if first_a != first_b {
        first_a
    } else {
        key_less(a.created_at as int, a.id, b.created_at as int, b.id)
    }
}

/// The reading order of a thread's posts.
pub open spec fn post_order(op: Option<Seq<char>>) -> spec_fn(PostRow, PostRow) -> bool {
    |a: PostRow, b: PostRow| !post_before(op, b, a)
}

/// A thread's posts in reading order.
pub open spec fn thread_posts(f: Forum, thread_id: Seq<char>) -> Seq<PostRow> {
    sorted(
        f.posts.filter(post_in(thread_id)),
        post_order(original_of(f.original_posts, thread_id)),
    )
}

/// Oldest first.
pub open spec fn ascending() -> spec_fn(PostRow, PostRow) -> bool {
    |a: PostRow, b: PostRow| !key_less(b.created_at as int, b.id, a.created_at as int, a.id)
}

/// Newest first.
pub open spec fn descending() -> spec_fn(PostRow, PostRow) -> bool {
    |a: PostRow, b: PostRow| !key_less(a.created_at as int, a.id, b.created_at as int, b.id)
}

/// Whether an anchor pages from old to new.
pub open spec fn walks_up(anchor: ReplyAnchor) -> bool {
    anchor is First || anchor is From || anchor is After
}

/// Whether a reply lies on the anchor's side of its cursor.
pub open spec fn anchored(anchor: ReplyAnchor, p: PostRow) -> bool {
    match anchor {
        ReplyAnchor::First => true,
        ReplyAnchor::Latest => true,
        ReplyAnchor::From(at, id) => !key_less(p.created_at as int, p.id, at as int, id@),
        ReplyAnchor::After(at, id) => key_less(at as int, id@, p.created_at as int, p.id),
        ReplyAnchor::Before(at, id) => key_less(p.created_at as int, p.id, at as int, id@),
        ReplyAnchor::Around(at, id) => !key_less(at as int, id@, p.created_at as int, p.id),
    }
}

/// The replies of a thread: its posts without the original and the separately shown one.
pub open spec fn reply_of(
    thread_id: Seq<char>,
    op_id: Seq<char>,
    excluded: Option<Seq<char>>,
) -> spec_fn(PostRow) -> bool {
    |p: PostRow| p.thread_id == thread_id && p.id != op_id && excluded != Some(p.id)
}

/// The replies on the anchor's side of its cursor.
pub open spec fn anchored_reply(
    thread_id: Seq<char>,
    op_id: Seq<char>,
    excluded: Option<Seq<char>>,
    anchor: ReplyAnchor,
) -> spec_fn(PostRow) -> bool {
    |p: PostRow| reply_of(thread_id, op_id, excluded)(p) && anchored(anchor, p)
}

/// One page of replies.
pub open spec fn reply_page(
    f: Forum,
    thread_id: Seq<char>,
    op_id: Seq<char>,
    excluded: Option<Seq<char>>,
    anchor: ReplyAnchor,
    limit: int,
) -> Seq<PostRow> {
    limited(
        sorted(
            f.posts.filter(anchored_reply(thread_id, op_id, excluded, anchor)),
            if walks_up(anchor) {
                ascending()
            } else {
                descending()
            },
        ),
        limit,
    )
}

pub(crate) fn is_key_less(at: i64, id: &str, at2: i64, id2: &str) -> (r: bool)
    ensures
        r == key_less(at as int, id@, at2 as int, id2@),
{
    at < at2 || (at == at2 && str_less(id, id2))
}

fn is_anchored(anchor: &ReplyAnchor, p: &Post) -> (r: bool)
    ensures
        r == anchored(*anchor, p@),
{
    match anchor {
        ReplyAnchor::First => true,
        ReplyAnchor::Latest => true,
        ReplyAnchor::From(at, id) => !is_key_less(p.created_at, p.id.as_str(), *at, id.as_str()),
        ReplyAnchor::After(at, id) => is_key_less(*at, id.as_str(), p.created_at, p.id.as_str()),
        ReplyAnchor::Before(at, id) => is_key_less(p.created_at, p.id.as_str(), *at, id.as_str()),
        ReplyAnchor::Around(at, id) => !is_key_less(*at, id.as_str(), p.created_at, p.id.as_str()),
    }
}

/// Whether an optional text is the given one.
pub(crate) fn is_some_text(o: &Option<String>, x: &str) -> (r: bool)
    ensures
        r == (opt(*o) == Some(x@)),
{
    match o {
        Some(t) => same(t.as_str(), x),
        None => false,
    }
}

/// Sort posts into reading order.
pub(crate) fn sort_posts(posts: Vec<Post>, op: &Option<String>) -> (out: Vec<Post>)
    ensures
        views(out@) == sorted(views(posts@), post_order(opt(*op))),
{
    let le = |a: &Post, b: &Post| -> (r: bool)
        ensures
            r == post_order(opt(*op))(a@, b@),
        {
            let first_a = is_some_text(op, a.id.as_str());
            let first_b = is_some_text(op, b.id.as_str());
            if first_b != first_a {
                !first_b
            } else {
                !is_key_less(b.created_at, b.id.as_str(), a.created_at, a.id.as_str())
            }
        };
    sort_rows(posts, le, Ghost(post_order(opt(*op))))
}

/// How many replies a thread has.
pub(crate) fn reply_count(posts: &Vec<Post>, thread_id: &str) -> (r: i64)
    ensures
        r == replies_in(views(posts@), thread_id@),
{
    let test = |p: &Post| -> (b: bool)
        ensures
            b == post_in(thread_id@)(p@),
        { same(p.thread_id.as_str(), thread_id) };
    let n: i64 = to_count(count(posts, test, Ghost(post_in(thread_id@))));
    if n <= 1 {
        0
    } else {
        n - 1
    }
}

fn is_same_opt(o: Option<&str>, x: &str) -> (r: bool)
    ensures
        r == (opt(o) == Some(x@)),
{
    match o {
        Some(t) => same(t, x),
        None => false,
    }
}

impl InMemoryStore {
    fn is_in_scope(&self, category_id: Option<&str>, status: ThreadStatusFilter, t: &Thread) -> (r:
        bool)
        ensures
            r == in_scope(self@, opt(category_id), status, t@),
    {
        if let Some(id) = category_id {
            if !same(t.category_id.as_str(), id) {
                return false;
            }
        }
        let format = category_format(&self.categories, t.category_id.as_str());
        let solved = has_valid_question_solution(t, format, &self.original_posts, &self.posts);
        thread_matches_status(solved, format.is_question(), status)
    }

    fn is_solved_thread(&self, t: &Thread) -> (r: bool)
        ensures
            r == solved_in(self@, t@),
    {
        let format = category_format(&self.categories, t.category_id.as_str());
        has_valid_question_solution(t, format, &self.original_posts, &self.posts)
    }

    fn is_fed(&self, viewer_sub: &str, thread_id: &str) -> (r: bool)
        ensures
            r == some_row(self@.subscriptions, feeds(viewer_sub@, thread_id@)),
    {
        let test = |s: &ThreadSubscription| -> (b: bool)
            ensures
                b == feeds(viewer_sub@, thread_id@)(s@),
            {
                same(s.subscriber_sub.as_str(), viewer_sub) && same(s.thread_id.as_str(), thread_id)
                    && s.level.appears_in_personal_feeds()
            };
        any_row(&self.subscriptions, test, Ghost(feeds(viewer_sub@, thread_id@)))
    }

    /// The most recently active threads of all categories, pinned ones first.
    pub fn recent_threads(&self, limit: i64) -> (r: Result<Vec<Thread>, StoreError>)
        ensures
            listed(r) == Ok::<Seq<ThreadRow>, Failure>(
                limited(sorted(self@.threads, display_order()), limit as int),
            ),
    {
        let le = |a: &Thread, b: &Thread| -> (r: bool)
            ensures
                r == display_order()(a@, b@),
            { !is_displayed_before(b, a) };
        let mut rows = sort_rows(duplicate_rows(&self.threads), le, Ghost(display_order()));
        limit_rows(&mut rows, limit);
        Ok(rows)
    }

    /// The most recently active threads of one category, pinned ones first.
    pub fn threads_in_category(&self, category_id: &str, limit: i64) -> (r: Result<
        Vec<Thread>,
        StoreError,
    >)
        ensures
            listed(r) == Ok::<Seq<ThreadRow>, Failure>(
                limited(
                    sorted(self@.threads.filter(thread_in(category_id@)), display_order()),
                    limit as int,
                ),
            ),
    {
        let test = |t: &Thread| -> (b: bool)
            ensures
                b == thread_in(category_id@)(t@),
            { same(t.category_id.as_str(), category_id) };
        let le = |a: &Thread, b: &Thread| -> (r: bool)
            ensures
                r == display_order()(a@, b@),
            { !is_displayed_before(b, a) };
        let rows = select(&self.threads, test, Ghost(thread_in(category_id@)));
        let mut rows = sort_rows(rows, le, Ghost(display_order()));
        limit_rows(&mut rows, limit);
        Ok(rows)
    }

    /// What the heat of each thread depends on: its reply count and its creation time, with no heat
    /// yet.
    pub fn heat_requests(&self) -> (out: Vec<Heat>)
        ensures
            views(out@) == self@.threads.map_values(
                |t: ThreadRow|
                    Heat {
                        reply_count: replies_in(self@.posts, t.id),
                        created_at: t.created_at,
                        heat: 0,
                    },
            ),
    {
        let f = |t: &Thread| -> (h: Heat)
            ensures
                h@ == (Heat {
                    reply_count: replies_in(self@.posts, t@.id),
                    created_at: t@.created_at,
                    heat: 0,
                }),
            {
                Heat {
                    reply_count: reply_count(&self.posts, t.id.as_str()),
                    created_at: t.created_at,
                    heat: 0,
                }
            };
        map_rows(
            &self.threads,
            f,
            Ghost(
                |t: ThreadRow|
                    Heat {
                        reply_count: replies_in(self@.posts, t.id),
                        created_at: t.created_at,
                        heat: 0,
                    },
            ),
        )
    }

    /// Threads by category, question state, and subscription, in the requested order. The heat
    /// table ranks the hot order and is not consulted in the others.
    pub fn list_threads(
        &self,
        category_id: Option<&str>,
        sort: ThreadSort,
        subscribed_sub: Option<&str>,
        status: ThreadStatusFilter,
        limit: i64,
        heat: &Vec<Heat>,
    ) -> (r: Result<Vec<Thread>, StoreError>)
        ensures
            listed(r) == Ok::<Seq<ThreadRow>, Failure>(
                thread_list(
                    self@,
                    opt(category_id),
                    sort,
                    opt(subscribed_sub),
                    status,
                    limit as int,
                    views(heat@),
                ),
            ),
    {
        let ghost admits = list_admits(self@, opt(category_id), opt(subscribed_sub), status);
        let test = |t: &Thread| -> (b: bool)
            ensures
                b == list_admits(self@, opt(category_id), opt(subscribed_sub), status)(t@),
            {
                self.is_in_scope(category_id, status, t) && match subscribed_sub {
                    Some(sub) => self.is_fed(sub, t.id.as_str()),
                    None => true,
                }
            };
        let threads = select(&self.threads, test, Ghost(admits));
        let rank = |t: &Thread| -> (row: RankedThread)
            ensures
                row@ == ranked_in(self@, views(heat@))(t@),
            {
                let replies: i64 = reply_count(&self.posts, t.id.as_str());
                RankedThread {
                    thread: public_thread(t.duplicate(), self.is_solved_thread(t)),
                    reply_count: replies,
                    heat: heat_in(heat, replies, t.created_at),
                }
            };
        let rows = map_rows(&threads, rank, Ghost(ranked_in(self@, views(heat@))));
        let mut rows = sort_thread_rows(rows, sort);
        limit_rows(&mut rows, limit);
        let strip = |row: &RankedThread| -> (t: Thread)
            ensures
                t@ == ranked_thread()(row@),
            { row.thread.duplicate() };
        Ok(map_rows(&rows, strip, Ghost(ranked_thread())))
    }

    fn opening_text(&self, thread_id: &str) -> (r: String)
        ensures
            r@ == opening_body(self@, thread_id@),
    {
        let found = original_id(&self.original_posts, thread_id);
        let op = &found;
        let test = |p: &Post| -> (b: bool)
            ensures
                b == (p@.thread_id == thread_id@ && opt(*op) == Some(p@.id)),
            { same(p.thread_id.as_str(), thread_id) && is_some_text(op, p.id.as_str()) };
        match get_last_row(&self.posts, test, Ghost(opening_post(self@, thread_id@))) {
            Some(p) => p.body_md,
            None => String::new(),
        }
    }

    fn solution_text(&self, t: &Thread) -> (r: String)
        ensures
            r@ == solution_body(self@, t@),
    {
        if !category_format(&self.categories, t.category_id.as_str()).is_question() {
            return String::new();
        }
        match valid_accepted_post(t, &self.original_posts, &self.posts) {
            Some(accepted) => {
                let test = |p: &Post| -> (b: bool)
                    ensures
                        b == post_is(accepted@.id)(p@),
                    { p.id == accepted.id };
                match get_last_row(&self.posts, test, Ghost(post_is(accepted@.id))) {
                    Some(p) => p.body_md,
                    None => String::new(),
                }
            },
            None => String::new(),
        }
    }

    fn search_one(
        &self,
        needle: &str,
        category_id: Option<&str>,
        status: ThreadStatusFilter,
        t: &Thread,
    ) -> (r: Option<ThreadSearchHit>)
        ensures
            opt(r) == search_hit(self@, needle@, opt(category_id), status)(t@),
    {
        if !self.is_in_scope(category_id, status, t) {
            return None;
        }
        let first_body_md = self.opening_text(t.id.as_str());
        let accepted_body_md = self.solution_text(t);
        let matched_in_solution = contains(
            lowercase(accepted_body_md.as_str()).as_str(),
            needle,
        );
        let matches = contains(lowercase(t.title.as_str()).as_str(), needle) || contains(
            lowercase(first_body_md.as_str()).as_str(),
            needle,
        ) || matched_in_solution;
        if !matches {
            return None;
        }
        Some(
            ThreadSearchHit {
                thread: public_thread(t.duplicate(), self.is_solved_thread(t)),
                first_body_md,
                accepted_body_md,
                matched_in_solution,
                reply_count: reply_count(&self.posts, t.id.as_str()),
            },
        )
    }

    /// Search titles, original posts, and solutions of questions.
    pub fn search_threads(
        &self,
        query: &str,
        category_id: Option<&str>,
        status: ThreadStatusFilter,
        limit: i64,
    ) -> (r: Result<Vec<ThreadSearchHit>, StoreError>)
        ensures
            listed(r) == Ok::<Seq<ThreadSearchHitRow>, Failure>(
                search_hits(self@, query@, opt(category_id), status, limit as int),
            ),
    {
        let needle = lowercase(trim(query).as_str());
        if needle.as_str().is_empty() || limit <= 0 {
            let none: Vec<ThreadSearchHit> = Vec::new();
            assert(views(none@) =~= Seq::empty());
            return Ok(none);
        }
        let find = |t: &Thread| -> (hit: Option<ThreadSearchHit>)
            ensures
                opt(hit) == search_hit(self@, needle@, opt(category_id), status)(t@),
            { self.search_one(needle.as_str(), category_id, status, t) };
        let hits = collect_rows(
            &self.threads,
            find,
            Ghost(search_hit(self@, needle@, opt(category_id), status)),
        );
        let le = |a: &ThreadSearchHit, b: &ThreadSearchHit| -> (r: bool)
            ensures
                r == hit_order()(a@, b@),
            { !is_displayed_before(&b.thread, &a.thread) };
        let mut hits = sort_rows(hits, le, Ghost(hit_order()));
        limit_rows(&mut hits, limit);
        Ok(hits)
    }

    /// The thread with the identifier.
    pub fn get_thread(&self, id: &str) -> (r: Result<Option<Thread>, StoreError>)
        ensures
            maybe(r) == Ok::<Option<ThreadRow>, Failure>(first_row(self@.threads, thread_is(id@))),
    {
        match find_thread(&self.threads, id) {
            Some(i) => Ok(Some(self.threads[i].duplicate())),
            None => Ok(None),
        }
    }

    /// Digests of the most recently active threads.
    pub fn thread_digests(&self, limit: i64) -> (r: Result<Vec<ThreadDigest>, StoreError>)
        ensures
            listed(r) == Ok::<Seq<ThreadDigestRow>, Failure>(
                limited(sorted(self@.threads, recency_order()), limit as int).map_values(
                    digest_of(self@),
                ),
            ),
    {
        let le = |a: &Thread, b: &Thread| -> (r: bool)
            ensures
                r == recency_order()(a@, b@),
            { !is_more_recent(b, a) };
        let mut rows = sort_rows(duplicate_rows(&self.threads), le, Ghost(recency_order()));
        limit_rows(&mut rows, limit);
        let digest = |t: &Thread| -> (d: ThreadDigest)
            ensures
                d@ == digest_of(self@)(t@),
            {
                ThreadDigest {
                    id: t.id.clone(),
                    category_id: t.category_id.clone(),
                    title: t.title.clone(),
                    first_body_md: match self.original_of_thread(t.id.as_str()) {
                        Some(p) => p.body_md,
                        None => String::new(),
                    },
                }
            };
        Ok(map_rows(&rows, digest, Ghost(digest_of(self@))))
    }

    fn original_of_thread(&self, thread_id: &str) -> (r: Option<Post>)
        ensures
            opt(r) == first_row(self@.posts, original_post(self@, thread_id@)),
    {
        let found = original_id(&self.original_posts, thread_id);
        let op = &found;
        let test = |p: &Post| -> (b: bool)
            ensures
                b == (opt(*op) == Some(p@.id)),
            { is_some_text(op, p.id.as_str()) };
        get_row(&self.posts, test, Ghost(original_post(self@, thread_id@)))
    }

    /// How many posts a thread has, the original one included.
    pub fn count_posts(&self, thread_id: &str) -> (r: Result<i64, StoreError>)
        ensures
            plain(r) == Ok::<i64, Failure>(
                as_count(count_rows(self@.posts, post_in(thread_id@))),
            ),
    {
        let test = |p: &Post| -> (b: bool)
            ensures
                b == post_in(thread_id@)(p@),
            { same(p.thread_id.as_str(), thread_id) };
        Ok(to_count(count(&self.posts, test, Ghost(post_in(thread_id@)))))
    }

    /// The post with the identifier.
    pub fn get_post(&self, id: &str) -> (r: Result<Option<Post>, StoreError>)
        ensures
            maybe(r) == Ok::<Option<PostRow>, Failure>(first_row(self@.posts, post_is(id@))),
    {
        match find_post(&self.posts, id) {
            Some(i) => Ok(Some(self.posts[i].duplicate())),
            None => Ok(None),
        }
    }

    /// The accepted reply of a thread, when its pointer is valid.
    pub fn get_valid_accepted_post(&self, thread_id: &str) -> (r: Result<Option<Post>, StoreError>)
        ensures
            maybe(r) == Ok::<Option<PostRow>, Failure>(
                match first_row(self@.threads, thread_is(thread_id@)) {
                    Some(t) => valid_accepted(t, self@.original_posts, self@.posts),
                    None => None,
                },
            ),
    {
        match find_thread(&self.threads, thread_id) {
            Some(i) => Ok(valid_accepted_post(&self.threads[i], &self.original_posts, &self.posts)),
            None => Ok(None),
        }
    }

    /// The posts of a thread: the original one first, then the replies from old to new.
    pub fn posts_in_thread(&self, thread_id: &str) -> (r: Result<Vec<Post>, StoreError>)
        ensures
            listed(r) == Ok::<Seq<PostRow>, Failure>(thread_posts(self@, thread_id@)),
    {
        Ok(self.ordered_posts(thread_id))
    }

    /// The posts of a thread in reading order.
    pub(crate) fn ordered_posts(&self, thread_id: &str) -> (out: Vec<Post>)
        ensures
            views(out@) == thread_posts(self@, thread_id@),
    {
        let op = original_id(&self.original_posts, thread_id);
        let test = |p: &Post| -> (b: bool)
            ensures
                b == post_in(thread_id@)(p@),
            { same(p.thread_id.as_str(), thread_id) };
        sort_posts(select(&self.posts, test, Ghost(post_in(thread_id@))), &op)
    }

    /// The recorded original post of a thread.
    pub fn first_post_in_thread(&self, thread_id: &str) -> (r: Result<Option<Post>, StoreError>)
        ensures
            maybe(r) == Ok::<Option<PostRow>, Failure>(
                first_row(self@.posts, original_post(self@, thread_id@)),
            ),
    {
        Ok(self.original_of_thread(thread_id))
    }

    /// One keyset page of a thread's replies, in fetch order: ascending for an anchor that pages
    /// towards newer replies, descending otherwise.
    pub fn replies_page(
        &self,
        thread_id: &str,
        op_id: &str,
        excluded_post_id: Option<&str>,
        anchor: &ReplyAnchor,
        limit: i64,
    ) -> (r: Result<Vec<Post>, StoreError>)
        ensures
            listed(r) == Ok::<Seq<PostRow>, Failure>(
                reply_page(
                    self@,
                    thread_id@,
                    op_id@,
                    opt(excluded_post_id),
                    *anchor,
                    limit as int,
                ),
            ),
    {
        let test = |p: &Post| -> (b: bool)
            ensures
                b == anchored_reply(thread_id@, op_id@, opt(excluded_post_id), *anchor)(p@),
            {
                same(p.thread_id.as_str(), thread_id) && !same(p.id.as_str(), op_id)
                    && !is_same_opt(excluded_post_id, p.id.as_str()) && is_anchored(anchor, p)
            };
        let rows = select(
            &self.posts,
            test,
            Ghost(anchored_reply(thread_id@, op_id@, opt(excluded_post_id), *anchor)),
        );
        let up = match anchor {
            ReplyAnchor::First | ReplyAnchor::From(_, _) | ReplyAnchor::After(_, _) => true,
            ReplyAnchor::Before(_, _) | ReplyAnchor::Latest | ReplyAnchor::Around(_, _) => false,
        };
        let mut rows = if up {
            let le = |a: &Post, b: &Post| -> (r: bool)
                ensures
                    r == ascending()(a@, b@),
                { !is_key_less(b.created_at, b.id.as_str(), a.created_at, a.id.as_str()) };
            sort_rows(rows, le, Ghost(ascending()))
        } else {
            let le = |a: &Post, b: &Post| -> (r: bool)
                ensures
                    r == descending()(a@, b@),
                { !is_key_less(a.created_at, a.id.as_str(), b.created_at, b.id.as_str()) };
            sort_rows(rows, le, Ghost(descending()))
        };
        limit_rows(&mut rows, limit);
        Ok(rows)
    }
}

} // verus!
