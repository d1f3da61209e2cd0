//! Laws of the marking commands and of the format change against the store in memory.

use vstd::prelude::*;

use crate::laws::agreement::lemma_post_found;
use crate::laws::commanding::{ends_with, told_format, told_id};
use crate::laws::order::law_ordered_set;
use crate::laws::state::{consistent, opened};
use crate::model::{CategoryFormat, PostRow, ThreadRow};
use crate::relational::command::{ToldRow, text_at, threads_at};
use crate::relational::commands::moderation::{located_at, transition};
use crate::relational::commands::opening::clock_at;
use crate::relational::commands::receipts::{reading, stranger_told, unsequenced_at};
use crate::relational::moderating::{LockedThreadRow, accepted_pointer, holds_answer, located_in};
use crate::rows::{first_row, lemma_filter_contains, lemma_filter_push, lemma_first_index, some_row};
use crate::store::catch_up::{not_yet_read, reading_mark, stranger_to};
use crate::store::categories::{answered_in, category_transition};
use crate::store::follow::receipt_of;
use crate::store::memory::Forum;
use crate::store::rules::{nonblank, receipt_ids};
use crate::store::tables::{category_is, original_of, post_is, post_is_in, thread_in, thread_is};
use crate::store::types::{OriginalPostRow, ReadReceiptRow};
use crate::text::{blank_text, trim_text};
use crate::texts::ordered_set;

verus! {

// ---------------------------------------------------------------------------
// Marking posts read.
// ---------------------------------------------------------------------------

/// The database answers with the thread of a post.
pub open spec fn told_thread_of(posts: Seq<PostRow>) -> spec_fn(Seq<char>) -> ToldRow {
    |id: Seq<char>|
        ToldRow::Text(
            match first_row(posts, post_is(id)) {
                Some(p) => Some(p.thread_id),
                None => None,
            },
        )
}

/// The database answers with the generation in which a viewer read a post.
pub open spec fn told_reading(receipts: Seq<ReadReceiptRow>, viewer_sub: Seq<char>) -> spec_fn(
    Seq<char>,
) -> ToldRow {
    |id: Seq<char>|
        ToldRow::Stamp(
            match first_row(receipts, receipt_of(viewer_sub, id)) {
                Some(r) => Some(Some(r.read_seq)),
                None => None,
            },
        )
}

/// What the database answers about posts that are marked read.
pub open spec fn reading_answers(
    f: Forum,
    viewer_sub: Seq<char>,
    thread_id: Seq<char>,
    ids: Seq<Seq<char>>,
) -> Seq<ToldRow> {
    seq![told_id(some_row(f.threads, thread_is(thread_id)), thread_id)] + ids.map_values(
        told_thread_of(f.posts),
    ) + ids.map_values(told_reading(f.read_receipts, viewer_sub)) + seq![
        ToldRow::Number(Some(f.generation)),
    ]
}

/// What was told to have no generation is what was not read yet.
proof fn lemma_unsequenced(
    told: Seq<ToldRow>,
    at: int,
    ids: Seq<Seq<char>>,
    receipts: Seq<ReadReceiptRow>,
    viewer_sub: Seq<char>,
)
    requires
        0 <= at,
        at + ids.len() <= told.len(),
        forall|k: int|
            0 <= k < ids.len() ==> #[trigger] told[at + k] == told_reading(receipts, viewer_sub)(
                ids[k],
            ),
    ensures
        unsequenced_at(told, at, ids) == ids.filter(not_yet_read(receipts, viewer_sub)),
    decreases ids.len(),
{
    reveal(Seq::filter);
    if ids.len() > 0 {
        let d = ids.drop_last();
        let n = ids.len() as int;
        assert forall|k: int| 0 <= k < d.len() implies #[trigger] told[at + k] == told_reading(
            receipts,
            viewer_sub,
        )(d[k]) by {
            assert(told[at + k] == told_reading(receipts, viewer_sub)(ids[k]));
        }
        lemma_unsequenced(told, at, d, receipts, viewer_sub);
        assert(told[at + (n - 1)] == told_reading(receipts, viewer_sub)(ids[n - 1]));
        lemma_first_index(receipts, receipt_of(viewer_sub, ids.last()));
        assert(ids =~= d.push(ids.last()));
        lemma_filter_push(d, ids.last(), not_yet_read(receipts, viewer_sub));
    } else {
        assert(ids.filter(not_yet_read(receipts, viewer_sub)) =~= Seq::empty());
    }
}

/// Posts are marked read or refused as in memory.
pub proof fn law_reading_ends_alike(
    f: Forum,
    viewer_sub: Seq<char>,
    thread_id: Seq<char>,
    post_ids: Seq<Seq<char>>,
    read_at: i64,
)
    requires
        consistent(f),
    ensures
        ends_with(
            reading(
                viewer_sub,
                thread_id,
                post_ids,
                read_at,
                match receipt_ids(post_ids) {
                    Ok(ids) => reading_answers(f, viewer_sub, thread_id, ids),
                    Err(_) => Seq::empty(),
                },
            ),
            reading_mark(f, viewer_sub, thread_id, post_ids, read_at).1,
        ),
{
    if receipt_ids(post_ids) is Ok {
        let ids = receipt_ids(post_ids)->Ok_0;
        let n = ids.len() as int;
        let told = reading_answers(f, viewer_sub, thread_id, ids);
        assert(told.len() == 2 + 2 * n);
        assert(told[0] == told_id(some_row(f.threads, thread_is(thread_id)), thread_id));
        assert forall|k: int| 0 <= k < n implies #[trigger] told[1 + k] == told_thread_of(f.posts)(
            ids[k],
        ) by {}
        assert forall|k: int| 0 <= k < n implies #[trigger] told[1 + n + k] == told_reading(
            f.read_receipts,
            viewer_sub,
        )(ids[k]) by {}
        assert(told[1 + 2 * n] == ToldRow::Number(Some(f.generation)));
        assert(clock_at(told, 1 + 2 * n) == f.generation);
        lemma_unsequenced(told, 1 + n, ids, f.read_receipts, viewer_sub);
        assert forall|k: int| 0 <= k < n implies (#[trigger] text_at(told, 1 + k) == Some(thread_id)
            <==> !stranger_to(f.posts, thread_id)(ids[k])) by {
            assert(told[1 + k] == told_thread_of(f.posts)(ids[k]));
            lemma_post_found(f, ids[k], thread_id);
            lemma_first_index(f.posts, post_is_in(ids[k], thread_id));
        }
        if stranger_told(told, n, thread_id) {
            let k = choose|k: int|
                0 <= k < n && 1 + k < told.len() && #[trigger] text_at(told, 1 + k) != Some(
                    thread_id,
                );
            assert(stranger_to(f.posts, thread_id)(ids[k]));
        }
        if some_row(ids, stranger_to(f.posts, thread_id)) {
            let k = choose|k: int|
                0 <= k < ids.len() && stranger_to(f.posts, thread_id)(#[trigger] ids[k]);
            assert(text_at(told, 1 + k) != Some(thread_id));
        }
    }
}

// ---------------------------------------------------------------------------
// Changing a format.
// ---------------------------------------------------------------------------

/// A thread with its pointers.
pub open spec fn pointers_of(originals: Seq<OriginalPostRow>) -> spec_fn(ThreadRow) -> LockedThreadRow {
    |t: ThreadRow|
        LockedThreadRow {
            id: t.id,
            first_post_id: original_of(originals, t.id)->0,
            accepted_post_id: t.accepted_post_id,
        }
}

/// What the database answers about a category that changes its format.
pub open spec fn format_answers(f: Forum, id: Seq<char>) -> Seq<ToldRow> {
    let threads = f.threads.filter(thread_in(id)).map_values(pointers_of(f.original_posts));
    seq![told_format(f, id), ToldRow::Threads(threads)] + ordered_set(
        nonblank(threads.map_values(accepted_pointer())),
    ).map_values(told_thread_of(f.posts))
}

/// What is left without the blank texts.
proof fn lemma_nonblank(s: Seq<Seq<char>>)
    ensures
        forall|x: Seq<char>|
            #[trigger] nonblank(s).contains(x) <==> s.contains(x) && !blank_text(x),
    decreases s.len(),
{
    if s.len() > 0 {
        let d = s.drop_last();
        lemma_nonblank(d);
        assert(s =~= d.push(s.last()));
        assert forall|x: Seq<char>| #[trigger] nonblank(s).contains(x) <==> s.contains(x)
            && !blank_text(x) by {
            let rest = nonblank(d);
            if nonblank(s).contains(x) {
                let k = choose|k: int| 0 <= k < nonblank(s).len() && nonblank(s)[k] == x;
                if k < rest.len() {
                    assert(rest[k] == x);
                    assert(rest.contains(x));
                    assert(d.contains(x));
                    let i = choose|i: int| 0 <= i < d.len() && d[i] == x;
                    assert(s[i] == x);
                }
            }
            if s.contains(x) && !blank_text(x) {
                let i = choose|i: int| 0 <= i < s.len() && s[i] == x;
                if i < d.len() {
                    assert(d[i] == x);
                    assert(d.contains(x));
                    assert(rest.contains(x));
                    let k = choose|k: int| 0 <= k < rest.len() && rest[k] == x;
                    assert(nonblank(s)[k] == x);
                } else {
                    assert(nonblank(s)[rest.len() as int] == x);
                }
            }
        }
    }
}

/// The posts that were located, from what the database answers.
proof fn lemma_located(told: Seq<ToldRow>, at: int, ids: Seq<Seq<char>>, posts: Seq<PostRow>)
    requires
        0 <= at,
        at + ids.len() <= told.len(),
        forall|k: int|
            0 <= k < ids.len() ==> #[trigger] told[at + k] == told_thread_of(posts)(ids[k]),
    ensures
        forall|post_id: Seq<char>, thread_id: Seq<char>|
            #[trigger] some_row(located_at(told, at, ids), located_in(post_id, thread_id))
                <==> ids.contains(post_id) && told_thread_of(posts)(post_id) == ToldRow::Text(
                Some(thread_id),
            ),
    decreases ids.len(),
{
    if ids.len() > 0 {
        let d = ids.drop_last();
        let n = ids.len() as int;
        assert forall|k: int| 0 <= k < d.len() implies #[trigger] told[at + k] == told_thread_of(
            posts,
        )(d[k]) by {
            assert(told[at + k] == told_thread_of(posts)(ids[k]));
        }
        lemma_located(told, at, d, posts);
        assert(told[at + (n - 1)] == told_thread_of(posts)(ids[n - 1]));
        assert(ids =~= d.push(ids.last()));
        assert forall|post_id: Seq<char>, thread_id: Seq<char>|
            #[trigger] some_row(located_at(told, at, ids), located_in(post_id, thread_id))
                <==> ids.contains(post_id) && told_thread_of(posts)(post_id) == ToldRow::Text(
                Some(thread_id),
            ) by {
            let all = located_at(told, at, ids);
            let rest = located_at(told, at, d);
            let which = located_in(post_id, thread_id);
            assert(some_row(rest, which) <==> d.contains(post_id) && told_thread_of(posts)(post_id)
                == ToldRow::Text(Some(thread_id)));
            if some_row(all, which) {
                let k = choose|k: int| 0 <= k < all.len() && which(#[trigger] all[k]);
                if k < rest.len() {
                    assert(which(rest[k]));
                    let i = choose|i: int| 0 <= i < d.len() && d[i] == post_id;
                    assert(ids[i] == post_id);
                } else {
                    assert(ids[n - 1] == post_id);
                }
            }
            if ids.contains(post_id) && told_thread_of(posts)(post_id) == ToldRow::Text(
                Some(thread_id),
            ) {
                let i = choose|i: int| 0 <= i < ids.len() && ids[i] == post_id;
                if i < d.len() {
                    assert(d[i] == post_id);
                    assert(some_row(rest, which));
                    let k = choose|k: int| 0 <= k < rest.len() && which(#[trigger] rest[k]);
                    assert(which(all[k]));
                } else {
                    assert(which(all[all.len() - 1]));
                }
            }
        }
    }
}

/// A category changes its format or is refused as in memory. The accepted pointers are stored
/// without blanks around them.
pub proof fn law_format_change_ends_alike(f: Forum, id: Seq<char>, format: CategoryFormat)
    requires
        consistent(f),
        forall|i: int|
            0 <= i < f.threads.len() ==> trim_text(
                (#[trigger] f.threads[i]).accepted_post_id,
            ) == f.threads[i].accepted_post_id,
    ensures
        ends_with(
            transition(id, format, format_answers(f, id)),
            category_transition(f, id, format).1,
        ),
{
    let told = format_answers(f, id);
    assert(told[0] == told_format(f, id));
    lemma_first_index(f.categories, category_is(id));
    if first_row(f.categories, category_is(id)) is Some {
        let c = first_row(f.categories, category_is(id))->0;
        c.format.law_names(c.format.text());
        let members = f.threads.filter(thread_in(id));
        let threads = members.map_values(pointers_of(f.original_posts));
        let pointers = threads.map_values(accepted_pointer());
        let accepted = ordered_set(nonblank(pointers));
        assert(told[1] == ToldRow::Threads(threads));
        assert(threads_at(told, 1) == threads);
        assert(told.len() == 2 + accepted.len());
        assert forall|k: int| 0 <= k < accepted.len() implies #[trigger] told[2 + k]
            == told_thread_of(f.posts)(accepted[k]) by {}
        lemma_located(told, 2, accepted, f.posts);
        law_ordered_set(nonblank(pointers));
        lemma_nonblank(pointers);
        lemma_filter_contains(f.threads, thread_in(id));
        let located = located_at(told, 2, accepted);
        assert forall|i: int| 0 <= i < members.len() implies (holds_answer(located)(
            #[trigger] threads[i],
        ) <==> answered_in(f, id)(members[i])) by {
            let t = members[i];
            assert(members.contains(t));
            assert(f.threads.contains(t));
            let k = choose|k: int| 0 <= k < f.threads.len() && f.threads[k] == t;
            assert(opened(f.original_posts, f.posts)(f.threads[k]));
            assert(pointers[i] == t.accepted_post_id);
            assert(pointers.contains(t.accepted_post_id));
            assert(accepted.contains(t.accepted_post_id) <==> nonblank(pointers).contains(
                t.accepted_post_id,
            ));
            lemma_post_found(f, t.accepted_post_id, t.id);
            assert(some_row(located, located_in(t.accepted_post_id, t.id)) <==> accepted.contains(
                t.accepted_post_id,
            ) && told_thread_of(f.posts)(t.accepted_post_id) == ToldRow::Text(Some(t.id)));
        }
        if some_row(threads, holds_answer(located)) {
            let i = choose|i: int|
                0 <= i < threads.len() && holds_answer(located)(#[trigger] threads[i]);
            assert(members.contains(members[i]));
            assert(f.threads.contains(members[i]));
            let k = choose|k: int| 0 <= k < f.threads.len() && f.threads[k] == members[i];
            assert(answered_in(f, id)(f.threads[k]));
        }
        if some_row(f.threads, answered_in(f, id)) {
            let k = choose|k: int|
                0 <= k < f.threads.len() && answered_in(f, id)(#[trigger] f.threads[k]);
            assert(f.threads.contains(f.threads[k]));
            assert(members.contains(f.threads[k]));
            let i = choose|i: int| 0 <= i < members.len() && members[i] == f.threads[k];
            assert(holds_answer(located)(threads[i]));
        }
    }
}

} // verus!
