//! What is gathered from the tables: the posts of a thread and its replies, reading states and
//! signals, reactions, mentions, digests and bans.

use vstd::prelude::*;

use crate::laws::content::law_post_order;
use crate::laws::delivering::thread_entry;
use crate::laws::desk::{lemma_opening_entry, lemma_stands, opening_entry, stands};
use crate::laws::finding::{lemma_last_row, posts_of};
use crate::laws::holding::{lemma_collected_holds, lemma_first_row_is};
use crate::laws::lists::law_record_orders;
use crate::laws::order::{
    law_key_less, law_ordered_set, law_sorted, law_sorted_filter, law_sorted_members, orders,
};
use crate::laws::pages::{law_post_orders, lemma_collected_sources, lemma_filter_twice};
use crate::laws::showing::{comes_before, post_named};
use crate::laws::state::{consistent, reaction_key};
use crate::model::{
    BannedAuthorRow, CategoryRow, MentionRow, PostRow, ThreadDigestRow, ThreadFollowLevel,
    ThreadReadingStateRow, ThreadRow,
};
use crate::relational::personal::{ReadPostRow, post_of, read_entry, read_id};
use crate::rows::{
    collected, count_rows, deduped, first_index, first_row, last_row, lemma_deduped,
    lemma_filter_contains, lemma_first_index, lemma_push_contains, limited, some_row, sorted,
};
use crate::store::catch_up::{read_by, reading_entry, reading_states, receipt_by};
use crate::store::categories::category_order;
use crate::store::follow::{
    bookmark_of, personal_signals, post_bookmarked, post_by, post_read, post_unread, receipt_of,
    signals_entry, signals_of,
};
use crate::store::memory::Forum;
use crate::store::posting::{mention_of, mention_order, mention_rows};
use crate::store::reactions::{
    ban_order, reaction_counts, reaction_is, reaction_kind, reaction_mine, reaction_of,
    reaction_to, reaction_toggle,
};
use crate::store::rules::{
    nonblank, nonempty, read_post, reading_state, signal_ids, trimmed, unread_post,
};
use crate::store::tables::{original_of, post_in, thread_in, thread_is};
use crate::store::threads::{
    anchored, anchored_reply, ascending, descending, digest_of, original_post, post_order,
    reply_page, thread_posts, walks_up,
};
use crate::store::types::{ReactionRow, ReplyAnchor, SignalsEntryRow, ThreadPersonalSignals};
use crate::text::{blank_text, text_less, trim_text};
use crate::texts::ordered_set;

verus! {

// ---------------------------------------------------------------------------
// Posts.
// ---------------------------------------------------------------------------

/// A list that was filtered and sorted holds what was kept, each as often as before.
proof fn lemma_kept<A>(s: Seq<A>, keep: spec_fn(A) -> bool, le: spec_fn(A, A) -> bool)
    requires
        orders(le),
    ensures
        sorted(s.filter(keep), le).len() == s.filter(keep).len(),
        forall|x: A| #[trigger]
            sorted(s.filter(keep), le).contains(x) <==> s.contains(x) && keep(x),
        forall|i: int, j: int|
            0 <= i < j < sorted(s.filter(keep), le).len() ==> le(
                #[trigger] sorted(s.filter(keep), le)[i],
                #[trigger] sorted(s.filter(keep), le)[j],
            ),
{
    law_sorted(s.filter(keep), le);
    law_sorted_members(s.filter(keep), le);
    lemma_filter_contains(s, keep);
}

/// A thread reads as its own posts, each once: the one it was opened with first, then from old to
/// new.
pub proof fn law_thread_reads_in_order(f: Forum, thread_id: Seq<char>)
    ensures
        ({
            let list = thread_posts(f, thread_id);
            &&& list.len() == posts_of(f, thread_id)
            &&& forall|p: PostRow| #[trigger]
                list.contains(p) <==> f.posts.contains(p) && p.thread_id == thread_id
            &&& forall|o: int, i: int, j: int|
                #![trigger opening_entry(f, thread_id, o), list[i], list[j]]
                opening_entry(f, thread_id, o) && 0 <= i < j < list.len() && list[j].id
                    == f.original_posts[o].post_id ==> list[i].id == f.original_posts[o].post_id
            &&& forall|i: int, j: int|
                #![trigger list[i], list[j]]
                0 <= i < j < list.len() && (forall|o: int| #[trigger]
                    opening_entry(f, thread_id, o) ==> list[i].id != f.original_posts[o].post_id)
                    ==> !comes_before(
                    list[j].created_at as int,
                    list[j].id,
                    list[i].created_at as int,
                    list[i].id,
                )
        }),
{
    let mine = |p: PostRow| p.thread_id == thread_id;
    assert(mine =~= post_in(thread_id));
    let op = original_of(f.original_posts, thread_id);
    let le = post_order(op);
    let list = thread_posts(f, thread_id);
    law_post_order(op);
    lemma_kept(f.posts, post_in(thread_id), le);
    lemma_opening_entry(f, thread_id);
    assert forall|o: int, i: int, j: int|
        #![trigger opening_entry(f, thread_id, o), list[i], list[j]]
        opening_entry(f, thread_id, o) && 0 <= i < j < list.len() && list[j].id
            == f.original_posts[o].post_id implies list[i].id == f.original_posts[o].post_id by {
        assert(le(list[i], list[j]));
    }
    assert forall|i: int, j: int|
        #![trigger list[i], list[j]]
        0 <= i < j < list.len() && (forall|o: int| #[trigger]
            opening_entry(f, thread_id, o) ==> list[i].id != f.original_posts[o].post_id) implies !comes_before(
        list[j].created_at as int,
        list[j].id,
        list[i].created_at as int,
        list[i].id,
    ) by {
        assert(le(list[i], list[j]));
    }
}

/// Whether a reply lies where the anchor asks: anywhere, from a reply on, behind one, before one,
/// or up to one.
pub open spec fn lies_at(anchor: ReplyAnchor, p: PostRow) -> bool {
    let at = p.created_at as int;
    match anchor {
        ReplyAnchor::First | ReplyAnchor::Latest => true,
        ReplyAnchor::From(t, id) => comes_before(t as int, id@, at, p.id) || (at == t && p.id
            == id@),
        ReplyAnchor::After(t, id) => comes_before(t as int, id@, at, p.id),
        ReplyAnchor::Before(t, id) => comes_before(at, p.id, t as int, id@),
        ReplyAnchor::Around(t, id) => comes_before(at, p.id, t as int, id@) || (at == t && p.id
            == id@),
    }
}

/// A page of replies holds the thread's replies that lie where the anchor asks, but for the
/// original post and the one that is shown apart; only a full page leaves some out. It runs from
/// old to new for the first replies, those from a reply on and those behind one, and from new to
/// old otherwise.
pub proof fn law_reply_page_holds(
    f: Forum,
    thread_id: Seq<char>,
    op_id: Seq<char>,
    excluded: Option<Seq<char>>,
    anchor: ReplyAnchor,
    limit: int,
)
    ensures
        ({
            let page = reply_page(f, thread_id, op_id, excluded, anchor, limit);
            &&& limit >= 0 ==> page.len() <= limit
            &&& page.len() < limit ==> forall|p: PostRow|
                f.posts.contains(p) && p.thread_id == thread_id && p.id != op_id && excluded
                    != Some(p.id) && lies_at(anchor, p) ==> #[trigger] page.contains(p)
            &&& forall|k: int|
                0 <= k < page.len() ==> f.posts.contains(#[trigger] page[k]) && page[k].thread_id
                    == thread_id && page[k].id != op_id && excluded != Some(page[k].id) && lies_at(
                    anchor,
                    page[k],
                )
            &&& forall|k: int, l: int|
                #![trigger page[k], page[l]]
                0 <= k < l < page.len() ==> match anchor {
                    ReplyAnchor::First | ReplyAnchor::From(..) | ReplyAnchor::After(
                        ..,
                    ) => !comes_before(
                        page[l].created_at as int,
                        page[l].id,
                        page[k].created_at as int,
                        page[k].id,
                    ),
                    _ => !comes_before(
                        page[k].created_at as int,
                        page[k].id,
                        page[l].created_at as int,
                        page[l].id,
                    ),
                }
        }),
{
    let keep = anchored_reply(thread_id, op_id, excluded, anchor);
    let le = if walks_up(anchor) {
        ascending()
    } else {
        descending()
    };
    let all = sorted(f.posts.filter(keep), le);
    let page = reply_page(f, thread_id, op_id, excluded, anchor, limit);
    law_post_orders();
    lemma_kept(f.posts, keep, le);
    assert forall|p: PostRow| #[trigger] anchored(anchor, p) == lies_at(anchor, p) by {
        let at = p.created_at as int;
        match anchor {
            ReplyAnchor::From(t, id) => {
                law_key_less(at, p.id, t as int, id@, at, p.id);
            },
            ReplyAnchor::Around(t, id) => {
                law_key_less(at, p.id, t as int, id@, at, p.id);
            },
            _ => {},
        }
    }
    if page.len() < limit {
        assert forall|p: PostRow|
            f.posts.contains(p) && p.thread_id == thread_id && p.id != op_id && excluded != Some(
                p.id,
            ) && lies_at(anchor, p) implies #[trigger] page.contains(p) by {
            assert(anchored(anchor, p));
            assert(all.contains(p));
            let k = choose|k: int| 0 <= k < all.len() && all[k] == p;
            assert(page[k] == p);
        }
    }
    assert forall|k: int| 0 <= k < page.len() implies f.posts.contains(#[trigger] page[k])
        && page[k].thread_id == thread_id && page[k].id != op_id && excluded != Some(page[k].id)
        && lies_at(anchor, page[k]) by {
        assert(all.contains(all[k]));
        assert(anchored(anchor, all[k]));
    }
    assert forall|k: int, l: int|
        #![trigger page[k], page[l]]
        0 <= k < l < page.len() implies match anchor {
        ReplyAnchor::First | ReplyAnchor::From(..) | ReplyAnchor::After(..) => !comes_before(
            page[l].created_at as int,
            page[l].id,
            page[k].created_at as int,
            page[k].id,
        ),
        _ => !comes_before(
            page[k].created_at as int,
            page[k].id,
            page[l].created_at as int,
            page[l].id,
        ),
    } by {
        assert(le(all[k], all[l]));
    }
}

/// A thread's digest carries its own names and the body of the post it was opened with, which is
/// the first post with the identifier that the opening entry names.
pub proof fn law_digest_says(f: Forum, t: ThreadRow, o: int, p: int)
    requires
        opening_entry(f, t.id, o),
        post_named(f, f.original_posts[o].post_id, p),
    ensures
        digest_of(f)(t) == (ThreadDigestRow {
            id: t.id,
            category_id: t.category_id,
            title: t.title,
            first_body_md: f.posts[p].body_md,
        }),
        first_row(f.posts, original_post(f, t.id)) == Some(f.posts[p]),
{
    lemma_opening_entry(f, t.id);
    let which = original_post(f, t.id);
    assert(which(f.posts[p]));
    assert forall|j: int| 0 <= j < p implies !which(#[trigger] f.posts[j]) by {}
    lemma_first_row_is(f.posts, which, p);
}

/// The posts of a thread and the threads of a category, counted.
pub proof fn law_counts_are_of_the_rows(f: Forum, id: Seq<char>)
    ensures
        count_rows(f.posts, post_in(id)) == posts_of(f, id),
        count_rows(f.threads, thread_in(id)) == f.threads.filter(
            |t: ThreadRow| t.category_id == id,
        ).len(),
        count_rows(f.mentions, mention_of(id)) == f.mentions.filter(
            |m: MentionRow| m.mentioned_username == id,
        ).len(),
{
    let mine = |p: PostRow| p.thread_id == id;
    let its = |t: ThreadRow| t.category_id == id;
    let whose = |m: MentionRow| m.mentioned_username == id;
    assert(mine =~= post_in(id));
    assert(its =~= thread_in(id));
    assert(whose =~= mention_of(id));
}

// ---------------------------------------------------------------------------
// Reading states.
// ---------------------------------------------------------------------------

/// Whether a viewer has read a post.
pub open spec fn has_read(f: Forum, viewer_sub: Seq<char>, post_id: Seq<char>) -> bool {
    exists|i: int|
        0 <= i < f.read_receipts.len() && (#[trigger] f.read_receipts[i]).viewer_sub == viewer_sub
            && f.read_receipts[i].post_id == post_id
}

proof fn lemma_read_by(f: Forum, viewer_sub: Seq<char>, post_id: Seq<char>)
    ensures
        read_by(f, viewer_sub).contains(post_id) <==> has_read(f, viewer_sub, post_id),
{
    let mine = receipt_by(viewer_sub);
    let kept = f.read_receipts.filter(mine);
    let ids = read_by(f, viewer_sub);
    lemma_filter_contains(f.read_receipts, mine);
    if ids.contains(post_id) {
        let k = choose|k: int| 0 <= k < ids.len() && ids[k] == post_id;
        assert(kept.contains(kept[k]));
        let i = choose|i: int| 0 <= i < f.read_receipts.len() && f.read_receipts[i] == kept[k];
        assert(f.read_receipts[i].viewer_sub == viewer_sub);
    }
    if has_read(f, viewer_sub, post_id) {
        let i = choose|i: int|
            0 <= i < f.read_receipts.len() && (#[trigger] f.read_receipts[i]).viewer_sub
                == viewer_sub && f.read_receipts[i].post_id == post_id;
        assert(f.read_receipts.contains(f.read_receipts[i]));
        assert(kept.contains(f.read_receipts[i]));
        let k = choose|k: int| 0 <= k < kept.len() && kept[k] == f.read_receipts[i];
        assert(ids[k] == post_id);
    }
}

/// Whether a reading state is that of a viewer in a thread: started once a post was read; the
/// unread posts counted; the first of them in reading order; and the post just before it, up to
/// which everything was read.
pub open spec fn reads_as(
    f: Forum,
    viewer_sub: Seq<char>,
    thread_id: Seq<char>,
    state: ThreadReadingStateRow,
) -> bool {
    let posts = thread_posts(f, thread_id);
    &&& state.started <==> exists|i: int|
        0 <= i < f.posts.len() && (#[trigger] f.posts[i]).thread_id == thread_id && has_read(
            f,
            viewer_sub,
            f.posts[i].id,
        )
    &&& state.unread_count == f.posts.filter(
        |p: PostRow| p.thread_id == thread_id && !has_read(f, viewer_sub, p.id),
    ).len()
    &&& match state.first_unread {
        None => state.unread_count == 0,
        Some(p) => exists|i: int|
            0 <= i < posts.len() && #[trigger] posts[i] == p && !has_read(f, viewer_sub, p.id)
                && (forall|j: int| 0 <= j < i ==> has_read(f, viewer_sub, (#[trigger] posts[j]).id))
                && match state.last_contiguous_read {
                None => i == 0,
                Some(q) => i > 0 && posts[i - 1] == q,
            },
    }
    &&& state.first_unread is None ==> match state.last_contiguous_read {
        None => posts.len() == 0,
        Some(q) => posts.len() > 0 && posts.last() == q,
    }
}

/// The reading state of a thread is what the viewer's receipts make it.
pub proof fn law_reading_state_says(f: Forum, viewer_sub: Seq<char>, thread_id: Seq<char>)
    requires
        f.posts.len() <= i64::MAX,
    ensures
        reads_as(
            f,
            viewer_sub,
            thread_id,
            reading_state(thread_posts(f, thread_id), read_by(f, viewer_sub)),
        ),
{
    let op = original_of(f.original_posts, thread_id);
    let le = post_order(op);
    let mine = post_in(thread_id);
    let posts = thread_posts(f, thread_id);
    let read = read_by(f, viewer_sub);
    let state = reading_state(posts, read);
    law_post_order(op);
    lemma_kept(f.posts, mine, le);
    assert forall|p: PostRow| #[trigger] unread_post(read)(p) == !has_read(f, viewer_sub, p.id) by {
        lemma_read_by(f, viewer_sub, p.id);
    }
    assert forall|p: PostRow| #[trigger] read_post(read)(p) == has_read(f, viewer_sub, p.id) by {
        lemma_read_by(f, viewer_sub, p.id);
    }
    let unread = |p: PostRow| p.thread_id == thread_id && !has_read(f, viewer_sub, p.id);
    let both = |p: PostRow| mine(p) && unread_post(read)(p);
    assert(unread =~= both);
    lemma_filter_twice(f.posts, mine, unread_post(read), both);
    assert(f.posts.filter(mine).filter(unread_post(read)) =~= f.posts.filter(both));
    law_sorted_filter(f.posts.filter(mine), le, unread_post(read));
    law_sorted(f.posts.filter(mine).filter(unread_post(read)), le);
    assert(posts.filter(unread_post(read)).len() == f.posts.filter(unread).len());
    f.posts.lemma_filter_len(unread);
    if state.started {
        let k = choose|k: int| 0 <= k < posts.len() && read_post(read)(#[trigger] posts[k]);
        assert(posts.contains(posts[k]));
        let i = choose|i: int| 0 <= i < f.posts.len() && f.posts[i] == posts[k];
        assert(f.posts[i].thread_id == thread_id);
    }
    if exists|i: int|
        0 <= i < f.posts.len() && (#[trigger] f.posts[i]).thread_id == thread_id && has_read(
            f,
            viewer_sub,
            f.posts[i].id,
        ) {
        let i = choose|i: int|
            0 <= i < f.posts.len() && (#[trigger] f.posts[i]).thread_id == thread_id && has_read(
                f,
                viewer_sub,
                f.posts[i].id,
            );
        assert(f.posts.contains(f.posts[i]));
        assert(posts.contains(f.posts[i]));
        let k = choose|k: int| 0 <= k < posts.len() && posts[k] == f.posts[i];
        assert(read_post(read)(posts[k]));
    }
    lemma_first_index(posts, unread_post(read));
    match first_index(posts, unread_post(read)) {
        Some(i) => {
            assert(unread_post(read)(posts[i]));
            assert forall|j: int| 0 <= j < i implies has_read(
                f,
                viewer_sub,
                (#[trigger] posts[j]).id,
            ) by {
                assert(!unread_post(read)(posts[j]));
            }
        },
        None => {
            lemma_filter_contains(posts, unread_post(read));
            if posts.filter(unread_post(read)).len() > 0 {
                let x = posts.filter(unread_post(read))[0];
                assert(posts.filter(unread_post(read)).contains(x));
                let k = choose|k: int| 0 <= k < posts.len() && posts[k] == x;
                assert(unread_post(read)(posts[k]));
            }
        },
    }
}

/// Of the requested threads each live one comes once with its reading state, by identifier, and
/// nothing else comes.
pub proof fn law_reading_states_answer(f: Forum, viewer_sub: Seq<char>, ids: Seq<Seq<char>>)
    requires
        reading_states(f, viewer_sub, ids) is Ok,
        f.posts.len() <= i64::MAX,
    ensures
        ({
            let list = reading_states(f, viewer_sub, ids)->Ok_0;
            &&& forall|m: int, n: int|
                0 <= m < ids.len() && !blank_text(#[trigger] ids[m]) && #[trigger] thread_entry(
                    f,
                    ids[m],
                    n,
                ) ==> exists|k: int|
                    0 <= k < list.len() && (#[trigger] list[k]).thread_id == ids[m] && reads_as(
                        f,
                        viewer_sub,
                        ids[m],
                        list[k].state,
                    )
            &&& forall|k: int|
                0 <= k < list.len() ==> ids.contains((#[trigger] list[k]).thread_id) && reads_as(
                    f,
                    viewer_sub,
                    list[k].thread_id,
                    list[k].state,
                )
            &&& forall|k: int, l: int|
                0 <= k < l < list.len() ==> text_less(
                    (#[trigger] list[k]).thread_id,
                    (#[trigger] list[l]).thread_id,
                )
        }),
{
    let wanted_ids = nonblank(ids);
    let unique = ordered_set(wanted_ids);
    let g = reading_entry(f, viewer_sub);
    let list = collected(unique, g);
    law_ordered_set(wanted_ids);
    lemma_nonblank(ids);
    assert forall|m: int, n: int|
        0 <= m < ids.len() && !blank_text(#[trigger] ids[m]) && #[trigger] thread_entry(
            f,
            ids[m],
            n,
        ) implies exists|k: int|
        0 <= k < list.len() && (#[trigger] list[k]).thread_id == ids[m] && reads_as(
            f,
            viewer_sub,
            ids[m],
            list[k].state,
        ) by {
        assert(wanted_ids.contains(ids[m]));
        assert(unique.contains(ids[m]));
        let i = choose|i: int| 0 <= i < unique.len() && unique[i] == ids[m];
        assert(thread_is(ids[m])(f.threads[n]));
        lemma_collected_holds(unique, g, i);
        let k = choose|k: int| 0 <= k < list.len() && list[k] == g(unique[i])->0;
        law_reading_state_says(f, viewer_sub, ids[m]);
        assert(list[k].thread_id == ids[m]);
    }
    let sources = lemma_collected_sources(unique, g);
    assert forall|k: int| 0 <= k < list.len() implies ids.contains((#[trigger] list[k]).thread_id)
        && reads_as(f, viewer_sub, list[k].thread_id, list[k].state) by {
        let id = unique[sources[k]];
        assert(g(id) == Some(list[k]));
        assert(unique.contains(id));
        assert(wanted_ids.contains(id));
        law_reading_state_says(f, viewer_sub, id);
    }
    assert forall|k: int, l: int| 0 <= k < l < list.len() implies text_less(
        (#[trigger] list[k]).thread_id,
        (#[trigger] list[l]).thread_id,
    ) by {
        assert(g(unique[sources[k]]) == Some(list[k]));
        assert(g(unique[sources[l]]) == Some(list[l]));
        assert(sources[k] < sources[l]);
    }
}

proof fn lemma_nonblank(ids: Seq<Seq<char>>)
    ensures
        forall|id: Seq<char>| #[trigger]
            nonblank(ids).contains(id) <==> ids.contains(id) && !blank_text(id),
    decreases ids.len(),
{
    if ids.len() > 0 {
        let d = ids.drop_last();
        lemma_nonblank(d);
        assert(ids =~= d.push(ids.last()));
        assert forall|id: Seq<char>| #[trigger]
            nonblank(ids).contains(id) <==> ids.contains(id) && !blank_text(id) by {
            lemma_push_contains(d, ids.last(), id);
            lemma_push_contains(nonblank(d), ids.last(), id);
        }
    }
}

// ---------------------------------------------------------------------------
// Signals.
// ---------------------------------------------------------------------------

/// Whether the signals say what relates a viewer to a thread.
pub open spec fn relates(
    f: Forum,
    viewer_sub: Seq<char>,
    t: ThreadRow,
    signals: ThreadPersonalSignals,
) -> bool {
    &&& if signals.follow_level is Unset {
        forall|level: ThreadFollowLevel|
            !(level is Unset) ==> !#[trigger] stands(f, viewer_sub, t.id, level)
    } else {
        stands(f, viewer_sub, t.id, signals.follow_level)
    }
    &&& signals.authored <==> t.author_sub == viewer_sub
    &&& signals.participated <==> exists|p: int|
        0 <= p < f.posts.len() && (#[trigger] f.posts[p]).thread_id == t.id
            && f.posts[p].author_sub == viewer_sub
    &&& signals.bookmarked <==> exists|p: int, b: int|
        0 <= p < f.posts.len() && 0 <= b < f.bookmarks.len() && (#[trigger] f.posts[p]).thread_id
            == t.id && (#[trigger] f.bookmarks[b]).owner_sub == viewer_sub
            && f.bookmarks[b].post_id == f.posts[p].id
    &&& signals.reading_started <==> exists|p: int|
        0 <= p < f.posts.len() && (#[trigger] f.posts[p]).thread_id == t.id && has_read(
            f,
            viewer_sub,
            f.posts[p].id,
        )
    &&& signals.has_unread <==> exists|p: int|
        0 <= p < f.posts.len() && (#[trigger] f.posts[p]).thread_id == t.id && !has_read(
            f,
            viewer_sub,
            f.posts[p].id,
        )
}

pub proof fn lemma_receipt(f: Forum, viewer_sub: Seq<char>, post_id: Seq<char>)
    ensures
        some_row(f.read_receipts, receipt_of(viewer_sub, post_id)) <==> has_read(
            f,
            viewer_sub,
            post_id,
        ),
{
    let which = receipt_of(viewer_sub, post_id);
    if has_read(f, viewer_sub, post_id) {
        let i = choose|i: int|
            0 <= i < f.read_receipts.len() && (#[trigger] f.read_receipts[i]).viewer_sub
                == viewer_sub && f.read_receipts[i].post_id == post_id;
        assert(which(f.read_receipts[i]));
    }
    if some_row(f.read_receipts, which) {
        let i = choose|i: int|
            0 <= i < f.read_receipts.len() && which(#[trigger] f.read_receipts[i]);
        assert(f.read_receipts[i].viewer_sub == viewer_sub);
    }
}

/// The signals of a thread say what relates the viewer to it.
pub proof fn law_signals_say(f: Forum, viewer_sub: Seq<char>, t: ThreadRow)
    requires
        consistent(f),
    ensures
        relates(f, viewer_sub, t, signals_of(f, viewer_sub, t)),
{
    let signals = signals_of(f, viewer_sub, t);
    lemma_stands(f, viewer_sub, t.id);
    let own = post_by(t.id, viewer_sub);
    let saved = post_bookmarked(f, t.id, viewer_sub);
    let read = post_read(f, t.id, viewer_sub);
    let unread = post_unread(f, t.id, viewer_sub);
    assert forall|p: int| 0 <= p < f.posts.len() implies #[trigger] read(f.posts[p]) == (
    f.posts[p].thread_id == t.id && has_read(f, viewer_sub, f.posts[p].id)) by {
        lemma_receipt(f, viewer_sub, f.posts[p].id);
    }
    assert forall|p: int| 0 <= p < f.posts.len() implies #[trigger] unread(f.posts[p]) == (
    f.posts[p].thread_id == t.id && !has_read(f, viewer_sub, f.posts[p].id)) by {
        lemma_receipt(f, viewer_sub, f.posts[p].id);
    }
    if exists|p: int|
        0 <= p < f.posts.len() && (#[trigger] f.posts[p]).thread_id == t.id
            && f.posts[p].author_sub == viewer_sub {
        let p = choose|p: int|
            0 <= p < f.posts.len() && (#[trigger] f.posts[p]).thread_id == t.id
                && f.posts[p].author_sub == viewer_sub;
        assert(own(f.posts[p]));
    }
    if signals.participated {
        let p = choose|p: int| 0 <= p < f.posts.len() && own(#[trigger] f.posts[p]);
        assert(f.posts[p].thread_id == t.id);
    }
    if exists|p: int, b: int|
        0 <= p < f.posts.len() && 0 <= b < f.bookmarks.len() && (#[trigger] f.posts[p]).thread_id
            == t.id && (#[trigger] f.bookmarks[b]).owner_sub == viewer_sub
            && f.bookmarks[b].post_id == f.posts[p].id {
        let (p, b) = choose|p: int, b: int|
            0 <= p < f.posts.len() && 0 <= b < f.bookmarks.len() && (
            #[trigger] f.posts[p]).thread_id == t.id && (#[trigger] f.bookmarks[b]).owner_sub
                == viewer_sub && f.bookmarks[b].post_id == f.posts[p].id;
        assert(bookmark_of(viewer_sub, f.posts[p].id)(f.bookmarks[b]));
        assert(saved(f.posts[p]));
    }
    if signals.bookmarked {
        let p = choose|p: int| 0 <= p < f.posts.len() && saved(#[trigger] f.posts[p]);
        let b = choose|b: int|
            0 <= b < f.bookmarks.len() && bookmark_of(viewer_sub, f.posts[p].id)(
                #[trigger] f.bookmarks[b],
            );
        assert(f.posts[p].thread_id == t.id && f.bookmarks[b].owner_sub == viewer_sub);
    }
    if signals.reading_started {
        let p = choose|p: int| 0 <= p < f.posts.len() && read(#[trigger] f.posts[p]);
        assert(f.posts[p].thread_id == t.id);
    }
    if exists|p: int|
        0 <= p < f.posts.len() && (#[trigger] f.posts[p]).thread_id == t.id && has_read(
            f,
            viewer_sub,
            f.posts[p].id,
        ) {
        let p = choose|p: int|
            0 <= p < f.posts.len() && (#[trigger] f.posts[p]).thread_id == t.id && has_read(
                f,
                viewer_sub,
                f.posts[p].id,
            );
        assert(read(f.posts[p]));
    }
    if signals.has_unread {
        let p = choose|p: int| 0 <= p < f.posts.len() && unread(#[trigger] f.posts[p]);
        assert(f.posts[p].thread_id == t.id);
    }
    if exists|p: int|
        0 <= p < f.posts.len() && (#[trigger] f.posts[p]).thread_id == t.id && !has_read(
            f,
            viewer_sub,
            f.posts[p].id,
        ) {
        let p = choose|p: int|
            0 <= p < f.posts.len() && (#[trigger] f.posts[p]).thread_id == t.id && !has_read(
                f,
                viewer_sub,
                f.posts[p].id,
            );
        assert(unread(f.posts[p]));
    }
}

/// Of the requested threads each live one comes with its signals, and nothing else comes.
pub proof fn law_signals_answer(f: Forum, viewer_sub: Seq<char>, ids: Seq<Seq<char>>)
    requires
        consistent(f),
        personal_signals(f, viewer_sub, ids) is Ok,
    ensures
        ({
            let list = personal_signals(f, viewer_sub, ids)->Ok_0;
            &&& forall|m: int, n: int|
                0 <= m < ids.len() && trim_text(#[trigger] ids[m]).len() > 0 && 0 <= n
                    < f.threads.len() && (#[trigger] f.threads[n]).id == trim_text(ids[m])
                    ==> exists|k: int|
                    0 <= k < list.len() && (#[trigger] list[k]).thread_id == trim_text(ids[m])
            &&& forall|k: int|
                0 <= k < list.len() ==> signalled(f, viewer_sub, ids, #[trigger] list[k])
        }),
{
    let unique = signal_ids(ids)->Ok_0;
    let g = signals_entry(f, viewer_sub);
    let list = personal_signals(f, viewer_sub, ids)->Ok_0;
    assert(list == collected(unique, g));
    lemma_signal_ids(ids);
    assert forall|m: int, n: int|
        0 <= m < ids.len() && trim_text(#[trigger] ids[m]).len() > 0 && 0 <= n < f.threads.len()
            && (#[trigger] f.threads[n]).id == trim_text(ids[m]) implies exists|k: int|
        0 <= k < list.len() && (#[trigger] list[k]).thread_id == trim_text(ids[m]) by {
        let id = trim_text(ids[m]);
        assert(unique.contains(id));
        let i = choose|i: int| 0 <= i < unique.len() && unique[i] == id;
        lemma_last_row(f.threads, thread_is(id));
        assert(thread_is(id)(f.threads[n]));
        lemma_collected_holds(unique, g, i);
        let k = choose|k: int| 0 <= k < list.len() && list[k] == g(unique[i])->0;
        assert(list[k].thread_id == id);
    }
    let sources = lemma_collected_sources(unique, g);
    assert forall|k: int| 0 <= k < list.len() implies signalled(
        f,
        viewer_sub,
        ids,
        #[trigger] list[k],
    ) by {
        let id = unique[sources[k]];
        assert(g(id) == Some(list[k]));
        assert(unique.contains(id));
        let m = choose|m: int| 0 <= m < ids.len() && trim_text(#[trigger] ids[m]) == id;
        lemma_last_row(f.threads, thread_is(id));
        let t = last_row(f.threads, thread_is(id))->0;
        let n = choose|n: int|
            0 <= n < f.threads.len() && thread_is(id)(#[trigger] f.threads[n]) && f.threads[n] == t
                && forall|j: int| n < j < f.threads.len() ==> !thread_is(id)(#[trigger] f.threads[j]);
        law_signals_say(f, viewer_sub, t);
        assert(trim_text(ids[m]) == list[k].thread_id);
        assert(f.threads[n].id == list[k].thread_id);
    }
}

/// Whether an entry is of a requested live thread, with its signals.
pub open spec fn signalled(
    f: Forum,
    viewer_sub: Seq<char>,
    ids: Seq<Seq<char>>,
    entry: SignalsEntryRow,
) -> bool {
    &&& exists|m: int| 0 <= m < ids.len() && trim_text(#[trigger] ids[m]) == entry.thread_id
    &&& exists|n: int|
        0 <= n < f.threads.len() && (#[trigger] f.threads[n]).id == entry.thread_id && relates(
            f,
            viewer_sub,
            f.threads[n],
            entry.signals,
        )
}

pub proof fn lemma_nonempty(ids: Seq<Seq<char>>)
    ensures
        forall|id: Seq<char>| #[trigger]
            nonempty(ids).contains(id) <==> ids.contains(id) && id.len() > 0,
    decreases ids.len(),
{
    if ids.len() > 0 {
        let d = ids.drop_last();
        lemma_nonempty(d);
        assert(ids =~= d.push(ids.last()));
        assert forall|id: Seq<char>| #[trigger]
            nonempty(ids).contains(id) <==> ids.contains(id) && id.len() > 0 by {
            lemma_push_contains(d, ids.last(), id);
            lemma_push_contains(nonempty(d), ids.last(), id);
        }
    }
}

proof fn lemma_signal_ids(ids: Seq<Seq<char>>)
    requires
        signal_ids(ids) is Ok,
    ensures
        forall|id: Seq<char>| #[trigger]
            signal_ids(ids)->Ok_0.contains(id) <==> id.len() > 0 && exists|m: int|
                0 <= m < ids.len() && trim_text(#[trigger] ids[m]) == id,
{
    let texts = trimmed(ids);
    lemma_nonempty(texts);
    law_ordered_set(nonempty(texts));
    assert forall|id: Seq<char>| #[trigger]
        signal_ids(ids)->Ok_0.contains(id) <==> id.len() > 0 && exists|m: int|
            0 <= m < ids.len() && trim_text(#[trigger] ids[m]) == id by {
        if texts.contains(id) {
            let m = choose|m: int| 0 <= m < texts.len() && texts[m] == id;
            assert(trim_text(ids[m]) == id);
        }
        if exists|m: int| 0 <= m < ids.len() && trim_text(#[trigger] ids[m]) == id {
            let m = choose|m: int| 0 <= m < ids.len() && trim_text(#[trigger] ids[m]) == id;
            assert(texts[m] == id);
        }
    }
}

// ---------------------------------------------------------------------------
// Reactions, mentions, bans and categories.
// ---------------------------------------------------------------------------

/// Whether a user gave a kind of reaction to a post.
pub open spec fn gave(f: Forum, post_id: Seq<char>, user_sub: Seq<char>, kind: Seq<char>) -> bool {
    exists|i: int|
        0 <= i < f.reactions.len() && (#[trigger] f.reactions[i]).post_id == post_id
            && f.reactions[i].user_sub == user_sub && f.reactions[i].kind == kind
}

/// How often a kind of reaction was given to a post.
pub open spec fn times_given(f: Forum, post_id: Seq<char>, kind: Seq<char>) -> nat {
    f.reactions.filter(|r: ReactionRow| r.post_id == post_id && r.kind == kind).len()
}

/// Every kind of reaction that a post was given is shown once, with how often it was given and
/// whether the viewer gave it; no other kind is shown.
pub proof fn law_reactions_are_counted(
    f: Forum,
    post_id: Seq<char>,
    viewer_sub: Option<Seq<char>>,
)
    requires
        f.reactions.len() <= i64::MAX,
    ensures
        ({
            let list = reaction_counts(f, post_id, viewer_sub);
            &&& forall|i: int|
                0 <= i < f.reactions.len() && (#[trigger] f.reactions[i]).post_id == post_id
                    ==> exists|k: int|
                    0 <= k < list.len() && (#[trigger] list[k]).kind == f.reactions[i].kind
            &&& forall|k: int|
                0 <= k < list.len() ==> (#[trigger] list[k]).count == times_given(
                    f,
                    post_id,
                    list[k].kind,
                ) && list[k].count > 0 && (list[k].mine <==> viewer_sub is Some && gave(
                    f,
                    post_id,
                    viewer_sub->0,
                    list[k].kind,
                ))
            &&& forall|k: int, l: int|
                0 <= k < l < list.len() ==> (#[trigger] list[k]).kind != (#[trigger] list[l]).kind
        }),
{
    let to = reaction_to(post_id);
    let rows = f.reactions.filter(to);
    let kinds = rows.map_values(reaction_kind());
    let distinct = deduped(kinds);
    let list = reaction_counts(f, post_id, viewer_sub);
    lemma_filter_contains(f.reactions, to);
    lemma_deduped(kinds);
    assert forall|i: int|
        0 <= i < f.reactions.len() && (#[trigger] f.reactions[i]).post_id == post_id implies exists|
        k: int,
    | 0 <= k < list.len() && (#[trigger] list[k]).kind == f.reactions[i].kind by {
        let r = f.reactions[i];
        assert(f.reactions.contains(r));
        assert(rows.contains(r));
        let j = choose|j: int| 0 <= j < rows.len() && rows[j] == r;
        assert(kinds[j] == r.kind);
        assert(kinds.contains(r.kind));
        assert(distinct.contains(r.kind));
        let k = choose|k: int| 0 <= k < distinct.len() && distinct[k] == r.kind;
        assert(list[k].kind == r.kind);
    }
    assert forall|k: int| 0 <= k < list.len() implies (#[trigger] list[k]).count == times_given(
        f,
        post_id,
        list[k].kind,
    ) && list[k].count > 0 && (list[k].mine <==> viewer_sub is Some && gave(
        f,
        post_id,
        viewer_sub->0,
        list[k].kind,
    )) by {
        let kind = distinct[k];
        assert(list[k].kind == kind);
        let both = |r: ReactionRow| r.post_id == post_id && r.kind == kind;
        lemma_filter_twice(f.reactions, to, reaction_of(kind), both);
        f.reactions.lemma_filter_len(both);
        assert(distinct.contains(kind));
        assert(kinds.contains(kind));
        let j = choose|j: int| 0 <= j < kinds.len() && kinds[j] == kind;
        assert(rows.contains(rows[j]));
        lemma_filter_contains(f.reactions, both);
        assert(f.reactions.filter(both).contains(rows[j]));
        assert(f.reactions.filter(both).len() > 0);
        let mine = reaction_mine(kind, viewer_sub);
        if list[k].mine {
            let m = choose|m: int| 0 <= m < rows.len() && mine(#[trigger] rows[m]);
            assert(rows.contains(rows[m]));
            let i = choose|i: int| 0 <= i < f.reactions.len() && f.reactions[i] == rows[m];
            assert(f.reactions[i].post_id == post_id);
        }
        if viewer_sub is Some && gave(f, post_id, viewer_sub->0, kind) {
            let i = choose|i: int|
                0 <= i < f.reactions.len() && (#[trigger] f.reactions[i]).post_id == post_id
                    && f.reactions[i].user_sub == viewer_sub->0 && f.reactions[i].kind == kind;
            assert(f.reactions.contains(f.reactions[i]));
            assert(rows.contains(f.reactions[i]));
            let m = choose|m: int| 0 <= m < rows.len() && rows[m] == f.reactions[i];
            assert(mine(rows[m]));
        }
    }
    assert forall|k: int, l: int| 0 <= k < l < list.len() implies (#[trigger] list[k]).kind != (
    #[trigger] list[l]).kind by {
        assert(list[k].kind == distinct[k] && list[l].kind == distinct[l]);
    }
}

/// After a toggle the user has given the reaction exactly when the answer says so, and that is the
/// opposite of what was before; nobody else's reaction and no other reaction changes.
pub proof fn law_toggle_gives_or_takes(
    f: Forum,
    post_id: Seq<char>,
    user_sub: Seq<char>,
    kind: Seq<char>,
    created_at: i64,
)
    requires
        consistent(f),
    ensures
        ({
            let (g, given) = reaction_toggle(f, post_id, user_sub, kind, created_at);
            &&& given == !gave(f, post_id, user_sub, kind)
            &&& gave(g, post_id, user_sub, kind) == given
            &&& forall|p: Seq<char>, u: Seq<char>, k: Seq<char>|
                (p != post_id || u != user_sub || k != kind) ==> (#[trigger] gave(g, p, u, k)
                    <==> gave(f, p, u, k))
            &&& g == (Forum { reactions: g.reactions, ..f })
        }),
{
    let which = reaction_is(post_id, user_sub, kind);
    let (g, given) = reaction_toggle(f, post_id, user_sub, kind, created_at);
    let s = f.reactions;
    lemma_first_index(s, which);
    if gave(f, post_id, user_sub, kind) {
        let i = choose|i: int|
            0 <= i < s.len() && (#[trigger] s[i]).post_id == post_id && s[i].user_sub == user_sub
                && s[i].kind == kind;
        assert(which(s[i]));
    }
    if given {
        assert(g.reactions.last().post_id == post_id);
        assert(g.reactions[s.len() as int].post_id == post_id);
    } else {
        let at = first_index(s, which)->0;
        assert(which(s[at]));
        assert(gave(f, post_id, user_sub, kind));
        if gave(g, post_id, user_sub, kind) {
            let i = choose|i: int|
                0 <= i < g.reactions.len() && (#[trigger] g.reactions[i]).post_id == post_id
                    && g.reactions[i].user_sub == user_sub && g.reactions[i].kind == kind;
            let j = if i < at {
                i
            } else {
                i + 1
            };
            assert(s[j] == g.reactions[i]);
            assert(reaction_key()(s[at]) != reaction_key()(s[j]));
        }
    }
    assert forall|p: Seq<char>, u: Seq<char>, k: Seq<char>|
        (p != post_id || u != user_sub || k != kind) implies (#[trigger] gave(g, p, u, k) <==> gave(
        f,
        p,
        u,
        k,
    )) by {
        if gave(f, p, u, k) {
            let i = choose|i: int|
                0 <= i < s.len() && (#[trigger] s[i]).post_id == p && s[i].user_sub == u && s[i].kind
                    == k;
            if given {
                assert(g.reactions[i] == s[i]);
            } else {
                let at = first_index(s, which)->0;
                assert(which(s[at]));
                assert(i != at);
                let j = if i < at {
                    i
                } else {
                    i - 1
                };
                assert(g.reactions[j] == s[i]);
            }
        }
        if gave(g, p, u, k) {
            let i = choose|i: int|
                0 <= i < g.reactions.len() && (#[trigger] g.reactions[i]).post_id == p
                    && g.reactions[i].user_sub == u && g.reactions[i].kind == k;
            if given {
                assert(i < s.len());
                assert(g.reactions[i] == s[i]);
            } else {
                let at = first_index(s, which)->0;
                let j = if i < at {
                    i
                } else {
                    i + 1
                };
                assert(s[j] == g.reactions[i]);
            }
        }
    }
}

/// The mentions of a name: all of them, unless the list is full, the newest first.
pub proof fn law_mentions_are_listed(f: Forum, name: Seq<char>, limit: int)
    ensures
        ({
            let list = limited(sorted(f.mentions.filter(mention_of(name)), mention_order()), limit);
            &&& list.len() < limit ==> forall|m: MentionRow|
                f.mentions.contains(m) && m.mentioned_username == name ==> #[trigger] list.contains(
                    m,
                )
            &&& forall|k: int|
                0 <= k < list.len() ==> f.mentions.contains(#[trigger] list[k])
                    && list[k].mentioned_username == name
            &&& forall|k: int, l: int|
                0 <= k < l < list.len() ==> !comes_before(
                    (#[trigger] list[k]).created_at as int,
                    list[k].post_id,
                    (#[trigger] list[l]).created_at as int,
                    list[l].post_id,
                )
        }),
{
    let of = mention_of(name);
    let all = sorted(f.mentions.filter(of), mention_order());
    let list = limited(all, limit);
    law_record_orders();
    lemma_kept(f.mentions, of, mention_order());
    if list.len() < limit {
        assert forall|m: MentionRow|
            f.mentions.contains(m) && m.mentioned_username == name implies #[trigger] list.contains(
            m,
        ) by {
            assert(all.contains(m));
            let k = choose|k: int| 0 <= k < all.len() && all[k] == m;
            assert(list[k] == m);
        }
    }
    assert forall|k: int| 0 <= k < list.len() implies f.mentions.contains(#[trigger] list[k])
        && list[k].mentioned_username == name by {
        assert(all.contains(all[k]));
    }
    assert forall|k: int, l: int| 0 <= k < l < list.len() implies !comes_before(
        (#[trigger] list[k]).created_at as int,
        list[k].post_id,
        (#[trigger] list[l]).created_at as int,
        list[l].post_id,
    ) by {
        assert(mention_order()(all[k], all[l]));
        law_key_less(
            all[k].created_at as int,
            all[k].post_id,
            all[l].created_at as int,
            all[l].post_id,
            0,
            all[k].post_id,
        );
    }
}

/// The mentions of a post are the names, each once, with the post, the thread and the moment.
pub proof fn law_mentions_name_everyone(
    post_id: Seq<char>,
    thread_id: Seq<char>,
    names: Seq<Seq<char>>,
    created_at: i64,
)
    ensures
        ({
            let rows = mention_rows(post_id, thread_id, names, created_at);
            &&& forall|m: MentionRow| #[trigger]
                rows.contains(m) <==> m.post_id == post_id && m.thread_id == thread_id
                    && m.created_at == created_at && names.contains(m.mentioned_username)
            &&& forall|k: int, l: int|
                0 <= k < l < rows.len() ==> (#[trigger] rows[k]).mentioned_username != (
                #[trigger] rows[l]).mentioned_username
        }),
{
    let distinct = deduped(names);
    let rows = mention_rows(post_id, thread_id, names, created_at);
    lemma_deduped(names);
    assert forall|m: MentionRow| #[trigger]
        rows.contains(m) <==> m.post_id == post_id && m.thread_id == thread_id && m.created_at
            == created_at && names.contains(m.mentioned_username) by {
        if rows.contains(m) {
            let k = choose|k: int| 0 <= k < rows.len() && rows[k] == m;
            assert(distinct[k] == m.mentioned_username);
            assert(distinct.contains(m.mentioned_username));
        }
        if m.post_id == post_id && m.thread_id == thread_id && m.created_at == created_at
            && names.contains(m.mentioned_username) {
            assert(distinct.contains(m.mentioned_username));
            let k = choose|k: int| 0 <= k < distinct.len() && distinct[k] == m.mentioned_username;
            assert(rows[k] == m);
        }
    }
}

/// The ban list holds every ban, the newest first and then by author; the category list holds every
/// category, by its place and then by its name.
pub proof fn law_moderation_lists(f: Forum)
    ensures
        ({
            let bans = sorted(f.banned, ban_order());
            let categories = sorted(f.categories, category_order());
            &&& bans.len() == f.banned.len() && categories.len() == f.categories.len()
            &&& forall|b: BannedAuthorRow| #[trigger] bans.contains(b) <==> f.banned.contains(b)
            &&& forall|c: CategoryRow| #[trigger]
                categories.contains(c) <==> f.categories.contains(c)
            &&& forall|k: int, l: int|
                #![trigger bans[k], bans[l]]
                0 <= k < l < bans.len() ==> bans[k].created_at >= bans[l].created_at && (
                bans[k].created_at == bans[l].created_at ==> !text_less(
                    bans[l].author_sub,
                    bans[k].author_sub,
                ))
            &&& forall|k: int, l: int|
                #![trigger categories[k], categories[l]]
                0 <= k < l < categories.len() ==> categories[k].sort_order
                    <= categories[l].sort_order && (categories[k].sort_order
                    == categories[l].sort_order ==> !text_less(
                    categories[l].name,
                    categories[k].name,
                ))
        }),
{
    let bans = sorted(f.banned, ban_order());
    let categories = sorted(f.categories, category_order());
    law_record_orders();
    law_sorted(f.banned, ban_order());
    law_sorted_members(f.banned, ban_order());
    law_sorted(f.categories, category_order());
    law_sorted_members(f.categories, category_order());
    assert forall|k: int, l: int|
        #![trigger bans[k], bans[l]]
        0 <= k < l < bans.len() implies bans[k].created_at >= bans[l].created_at && (
    bans[k].created_at == bans[l].created_at ==> !text_less(
        bans[l].author_sub,
        bans[k].author_sub,
    )) by {
        assert(ban_order()(bans[k], bans[l]));
    }
    assert forall|k: int, l: int|
        #![trigger categories[k], categories[l]]
        0 <= k < l < categories.len() implies categories[k].sort_order <= categories[l].sort_order
        && (categories[k].sort_order == categories[l].sort_order ==> !text_less(
        categories[l].name,
        categories[k].name,
    )) by {
        assert(category_order()(categories[k], categories[l]));
    }
}

// ---------------------------------------------------------------------------
// Reading states out of rows.
// ---------------------------------------------------------------------------

/// The rows of the posts of some threads, each with whether it was read, give each thread its own
/// reading state: its posts in the order of the rows, read where a row says so. A thread without
/// a row has none.
pub proof fn law_rows_give_reading_states(rows: Seq<ReadPostRow>, id: Seq<char>)
    ensures
        ({
            let entry = read_entry(rows)(id);
            let read = |p: Seq<char>|
                exists|k: int|
                    0 <= k < rows.len() && (#[trigger] rows[k]).read && rows[k].post.id == p;
            &&& entry is None <==> forall|k: int|
                0 <= k < rows.len() ==> (#[trigger] rows[k]).post.thread_id != id
            &&& entry is Some ==> {
                &&& entry->0.thread_id == id
                &&& entry->0.state.started <==> exists|k: int|
                    0 <= k < rows.len() && (#[trigger] rows[k]).post.thread_id == id && read(
                        rows[k].post.id,
                    )
                &&& entry->0.state.first_unread is Some <==> exists|k: int|
                    0 <= k < rows.len() && (#[trigger] rows[k]).post.thread_id == id && !read(
                        rows[k].post.id,
                    )
                &&& entry->0.state.first_unread is Some ==> exists|k: int|
                    0 <= k < rows.len() && (#[trigger] rows[k]).post
                        == entry->0.state.first_unread->0 && rows[k].post.thread_id == id && !read(
                        rows[k].post.id,
                    )
            }
        }),
{
    let of = post_of(id);
    let posts = collected(rows, of);
    let ids = collected(rows, read_id());
    let read = |p: Seq<char>|
        exists|k: int| 0 <= k < rows.len() && (#[trigger] rows[k]).read && rows[k].post.id == p;
    let sources = lemma_collected_sources(rows, of);
    let marks = lemma_collected_sources(rows, read_id());
    assert forall|p: Seq<char>| #[trigger] ids.contains(p) <==> read(p) by {
        if ids.contains(p) {
            let k = choose|k: int| 0 <= k < ids.len() && ids[k] == p;
            assert(read_id()(rows[marks[k]]) == Some(p));
            assert(rows[marks[k]].read);
        }
        if read(p) {
            let k = choose|k: int|
                0 <= k < rows.len() && (#[trigger] rows[k]).read && rows[k].post.id == p;
            lemma_collected_holds(rows, read_id(), k);
        }
    }
    assert forall|k: int| 0 <= k < rows.len() && (#[trigger] rows[k]).post.thread_id == id implies exists|
        i: int,
    | 0 <= i < posts.len() && #[trigger] posts[i] == rows[k].post by {
        lemma_collected_holds(rows, of, k);
        let i = choose|i: int| 0 <= i < posts.len() && posts[i] == rows[k].post;
        assert(posts[i] == rows[k].post);
    }
    assert forall|i: int| 0 <= i < posts.len() implies rows[sources[i]].post == #[trigger] posts[i]
        && posts[i].thread_id == id by {
        assert(of(rows[sources[i]]) == Some(posts[i]));
    }
    if posts.len() > 0 {
        assert(rows[sources[0]].post.thread_id == id);
        let unread = unread_post(ids);
        lemma_first_index(posts, unread);
        if let Some(i) = first_index(posts, unread) {
            assert(unread(posts[i]));
            assert(rows[sources[i]].post == posts[i]);
        } else {
            assert forall|k: int|
                0 <= k < rows.len() && (#[trigger] rows[k]).post.thread_id == id implies read(
                rows[k].post.id,
            ) by {
                let i = choose|i: int| 0 <= i < posts.len() && #[trigger] posts[i] == rows[k].post;
                assert(!unread(posts[i]));
            }
        }
        let started = read_post(ids);
        if some_row(posts, started) {
            let i = choose|i: int| 0 <= i < posts.len() && started(#[trigger] posts[i]);
            assert(rows[sources[i]].post == posts[i]);
        }
        if exists|k: int|
            0 <= k < rows.len() && (#[trigger] rows[k]).post.thread_id == id && read(
                rows[k].post.id,
            ) {
            let k = choose|k: int|
                0 <= k < rows.len() && (#[trigger] rows[k]).post.thread_id == id && read(
                    rows[k].post.id,
                );
            let i = choose|i: int| 0 <= i < posts.len() && #[trigger] posts[i] == rows[k].post;
            assert(started(posts[i]));
        }
    }
}

} // verus!
