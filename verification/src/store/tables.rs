//! Lookups shared by the store's queries and commands.

use vstd::prelude::*;

use crate::model::{Category, CategoryFormat, CategoryRow, Post, PostRow, Thread, ThreadRow};
use crate::rows::{
    find_row, first_index, first_row, get_last_row, get_row, last_row, opt, retain, some_row,
    views,
};
use crate::store::types::{OriginalPost, OriginalPostRow, ThreadStatusFilter};
use crate::text::{same, str_less, text_less, trim, trim_text};

verus! {

/// The category with the identifier.
pub open spec fn category_is(id: Seq<char>) -> spec_fn(CategoryRow) -> bool {
    |c: CategoryRow| c.id == id
}

/// The thread with the identifier.
pub open spec fn thread_is(id: Seq<char>) -> spec_fn(ThreadRow) -> bool {
    |t: ThreadRow| t.id == id
}

/// The post with the identifier.
pub open spec fn post_is(id: Seq<char>) -> spec_fn(PostRow) -> bool {
    |p: PostRow| p.id == id
}

/// The threads of a category.
pub open spec fn thread_in(category_id: Seq<char>) -> spec_fn(ThreadRow) -> bool {
    |t: ThreadRow| t.category_id == category_id
}

/// The posts of a thread.
pub open spec fn post_in(thread_id: Seq<char>) -> spec_fn(PostRow) -> bool {
    |p: PostRow| p.thread_id == thread_id
}

/// The post with the identifier in the thread.
pub open spec fn post_is_in(id: Seq<char>, thread_id: Seq<char>) -> spec_fn(PostRow) -> bool {
    |p: PostRow| p.id == id && p.thread_id == thread_id
}

/// The original-post entry of a thread.
pub open spec fn original_is(thread_id: Seq<char>) -> spec_fn(OriginalPostRow) -> bool {
    |o: OriginalPostRow| o.thread_id == thread_id
}

/// The original-post entries of the other threads.
pub open spec fn original_is_not(thread_id: Seq<char>) -> spec_fn(OriginalPostRow) -> bool {
    |o: OriginalPostRow| o.thread_id != thread_id
}

/// The post a thread was opened with.
pub open spec fn original_of(s: Seq<OriginalPostRow>, thread_id: Seq<char>) -> Option<Seq<char>> {
    match first_row(s, original_is(thread_id)) {
        Some(o) => Some(o.post_id),
        None => None,
    }
}

/// The original-post entries after a thread was opened with a post.
pub open spec fn with_original(
    s: Seq<OriginalPostRow>,
    thread_id: Seq<char>,
    post_id: Seq<char>,
) -> Seq<OriginalPostRow> {
    s.filter(original_is_not(thread_id)).push(OriginalPostRow { thread_id, post_id })
}

/// The format of a category; of several entries with one identifier the last counts, and an unknown
/// category is a discussion.
pub open spec fn format_of(categories: Seq<CategoryRow>, id: Seq<char>) -> CategoryFormat {
    match last_row(categories, category_is(id)) {
        Some(c) => c.format,
        None => CategoryFormat::Discussion,
    }
}

/// The accepted reply of a thread, when the pointer is valid: it names a live post of the same
/// thread other than the original one. The category's format plays no part, so a historical
/// solution in a discussion stays readable.
pub open spec fn valid_accepted(
    thread: ThreadRow,
    originals: Seq<OriginalPostRow>,
    posts: Seq<PostRow>,
) -> Option<PostRow> {
    let accepted = trim_text(thread.accepted_post_id);
    if accepted.len() == 0 || original_of(originals, thread.id) == Some(accepted) {
        None
    } else {
        first_row(posts, post_is_in(accepted, thread.id))
    }
}

/// Whether a thread is a question with a valid accepted reply.
pub open spec fn is_solved(
    thread: ThreadRow,
    format: CategoryFormat,
    originals: Seq<OriginalPostRow>,
    posts: Seq<PostRow>,
) -> bool {
    format is Question && valid_accepted(thread, originals, posts) is Some
}

/// A thread as lists show it: the accepted pointer is kept only for a solved question.
pub open spec fn public_row(thread: ThreadRow, solved: bool) -> ThreadRow {
    if solved {
        thread
    } else {
        ThreadRow { accepted_post_id: Seq::empty(), ..thread }
    }
}

/// Whether a thread belongs to a question-state scope.
pub open spec fn status_admits(solved: bool, question: bool, status: ThreadStatusFilter) -> bool {
    match status {
        ThreadStatusFilter::Any => true,
        ThreadStatusFilter::Questions => question,
        ThreadStatusFilter::Answered => solved,
        ThreadStatusFilter::Unanswered => question && !solved,
    }
}

/// Whether a thread was active more recently than another: by last reply, then by creation, then by
/// identifier.
pub open spec fn more_recent(a: ThreadRow, b: ThreadRow) -> bool {
    if a.last_at != b.last_at {
        a.last_at > b.last_at
    } else if a.created_at != b.created_at {
        a.created_at > b.created_at
    } else {
        text_less(b.id, a.id)
    }
}

/// Whether a thread is displayed before another: pinned first, then the more recent.
pub open spec fn displayed_before(a: ThreadRow, b: ThreadRow) -> bool {
    if a.pinned != b.pinned {
        a.pinned
    } else {
        more_recent(a, b)
    }
}

/// The display order of thread lists.
pub open spec fn display_order() -> spec_fn(ThreadRow, ThreadRow) -> bool {
    |a: ThreadRow, b: ThreadRow| !displayed_before(b, a)
}

/// The order of recent activity.
pub open spec fn recency_order() -> spec_fn(ThreadRow, ThreadRow) -> bool {
    |a: ThreadRow, b: ThreadRow| !more_recent(b, a)
}

// ---------------------------------------------------------------------------
// The same lookups, computed.
// ---------------------------------------------------------------------------

pub(crate) fn find_category(categories: &Vec<Category>, id: &str) -> (r: Option<usize>)
    ensures
        match r {
            Some(i) => i < categories@.len() && categories@[i as int]@.id == id@ && first_index(
                views(categories@),
                category_is(id@),
            ) == Some(i as int) && some_row(views(categories@), category_is(id@)),
            None => first_index(views(categories@), category_is(id@)) is None && !some_row(
                views(categories@),
                category_is(id@),
            ),
        },
{
    let test = |c: &Category| -> (b: bool)
        ensures
            b == category_is(id@)(c@),
        { same(c.id.as_str(), id) };
    find_row(categories, test, Ghost(category_is(id@)))
}

pub(crate) fn find_thread(threads: &Vec<Thread>, id: &str) -> (r: Option<usize>)
    ensures
        match r {
            Some(i) => i < threads@.len() && threads@[i as int]@.id == id@ && first_index(
                views(threads@),
                thread_is(id@),
            ) == Some(i as int) && some_row(views(threads@), thread_is(id@)),
            None => first_index(views(threads@), thread_is(id@)) is None && !some_row(
                views(threads@),
                thread_is(id@),
            ),
        },
{
    let test = |t: &Thread| -> (b: bool)
        ensures
            b == thread_is(id@)(t@),
        { same(t.id.as_str(), id) };
    find_row(threads, test, Ghost(thread_is(id@)))
}

pub(crate) fn find_post(posts: &Vec<Post>, id: &str) -> (r: Option<usize>)
    ensures
        match r {
            Some(i) => i < posts@.len() && posts@[i as int]@.id == id@ && first_index(
                views(posts@),
                post_is(id@),
            ) == Some(i as int) && some_row(views(posts@), post_is(id@)),
            None => first_index(views(posts@), post_is(id@)) is None && !some_row(
                views(posts@),
                post_is(id@),
            ),
        },
{
    let test = |p: &Post| -> (b: bool)
        ensures
            b == post_is(id@)(p@),
        { same(p.id.as_str(), id) };
    find_row(posts, test, Ghost(post_is(id@)))
}

pub(crate) fn original_id(originals: &Vec<OriginalPost>, thread_id: &str) -> (r: Option<String>)
    ensures
        opt(r) == original_of(views(originals@), thread_id@),
{
    let test = |o: &OriginalPost| -> (b: bool)
        ensures
            b == original_is(thread_id@)(o@),
        { same(o.thread_id.as_str(), thread_id) };
    match get_row(originals, test, Ghost(original_is(thread_id@))) {
        Some(o) => Some(o.post_id),
        None => None,
    }
}

pub(crate) fn set_original(originals: &mut Vec<OriginalPost>, thread_id: &str, post_id: &str)
    ensures
        views(final(originals)@) == with_original(views(old(originals)@), thread_id@, post_id@),
{
    remove_original(originals, thread_id);
    let ghost before = originals@;
    originals.push(
        OriginalPost { thread_id: thread_id.to_owned(), post_id: post_id.to_owned() },
    );
    assert(views(originals@) =~= views(before).push(
        OriginalPostRow { thread_id: thread_id@, post_id: post_id@ },
    ));
}

pub(crate) fn remove_original(originals: &mut Vec<OriginalPost>, thread_id: &str)
    ensures
        views(final(originals)@) == views(old(originals)@).filter(original_is_not(thread_id@)),
{
    let test = |o: &OriginalPost| -> (b: bool)
        ensures
            b == original_is_not(thread_id@)(o@),
        { !same(o.thread_id.as_str(), thread_id) };
    retain(originals, test, Ghost(original_is_not(thread_id@)));
}

pub(crate) fn category_format(categories: &Vec<Category>, id: &str) -> (r: CategoryFormat)
    ensures
        r == format_of(views(categories@), id@),
{
    let test = |c: &Category| -> (b: bool)
        ensures
            b == category_is(id@)(c@),
        { same(c.id.as_str(), id) };
    match get_last_row(categories, test, Ghost(category_is(id@))) {
        Some(c) => c.format,
        None => CategoryFormat::Discussion,
    }
}

/// The accepted reply of a thread, when its pointer is valid.
pub(crate) fn valid_accepted_post(
    thread: &Thread,
    original_posts: &Vec<OriginalPost>,
    posts: &Vec<Post>,
) -> (r: Option<Post>)
    ensures
        opt(r) == valid_accepted(thread@, views(original_posts@), views(posts@)),
{
    let accepted_id = trim(thread.accepted_post_id.as_str());
    if accepted_id.as_str().is_empty() {
        return None;
    }
    if let Some(op) = original_id(original_posts, thread.id.as_str()) {
        if op == accepted_id {
            return None;
        }
    }
    let test = |p: &Post| -> (b: bool)
        ensures
            b == post_is_in(accepted_id@, thread@.id)(p@),
        { p.id == accepted_id && p.thread_id == thread.id };
    get_row(posts, test, Ghost(post_is_in(accepted_id@, thread@.id)))
}

pub(crate) fn has_valid_question_solution(
    thread: &Thread,
    format: CategoryFormat,
    original_posts: &Vec<OriginalPost>,
    posts: &Vec<Post>,
) -> (r: bool)
    ensures
        r == is_solved(thread@, format, views(original_posts@), views(posts@)),
{
    format.is_question() && valid_accepted_post(thread, original_posts, posts).is_some()
}

/// A thread as lists show it.
pub(crate) fn public_thread(thread: Thread, solved: bool) -> (r: Thread)
    ensures
        r@ == public_row(thread@, solved),
{
    let mut out = thread;
    if !solved {
        out.accepted_post_id = String::new();
    }
    out
}

/// Whether a thread belongs to a question-state scope.
pub fn thread_matches_status(solved: bool, question: bool, status: ThreadStatusFilter) -> (r: bool)
    ensures
        r == status_admits(solved, question, status),
{
    match status {
        ThreadStatusFilter::Any => true,
        ThreadStatusFilter::Questions => question,
        ThreadStatusFilter::Answered => solved,
        ThreadStatusFilter::Unanswered => question && !solved,
    }
}

pub(crate) fn is_more_recent(a: &Thread, b: &Thread) -> (r: bool)
    ensures
        r == more_recent(a@, b@),
{
    if a.last_at != b.last_at {
        a.last_at > b.last_at
    } else if a.created_at != b.created_at {
        a.created_at > b.created_at
    } else {
        str_less(b.id.as_str(), a.id.as_str())
    }
}

pub(crate) fn is_displayed_before(a: &Thread, b: &Thread) -> (r: bool)
    ensures
        r == displayed_before(a@, b@),
{
    if a.pinned != b.pinned {
        a.pinned
    } else {
        is_more_recent(a, b)
    }
}

} // verus!
